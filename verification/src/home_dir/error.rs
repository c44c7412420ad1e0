use vstd::prelude::*;
use vstd::string::StringExecFns;

use crate::home_dir::user::normalized;

verus! {

/// Why a home directory could not be resolved.
#[derive(Debug, Clone, PartialEq, Eq)]
pub enum HomeDirErrorKind {
    /// No account or profile was found; the name is absent for the current user.
    NotFound(Option<String>),
    /// A native call failed; the system's message, where it gave one.
    OS(Option<String>),
    /// The caller may not inspect the processes of the user named.
    PermissionDenied(String),
    /// Resolving another user is not implemented on the platform.
    Unimplemented,
}

/// The failure of a resolution.
#[derive(Debug, Clone, PartialEq, Eq)]
pub struct HomeDirError(pub HomeDirErrorKind);

/// A failure as a plain value: the kind, with its texts as sequences of characters.
pub enum Failure {
    NotFound(Option<Seq<char>>),
    OS(Option<Seq<char>>),
    PermissionDenied(Seq<char>),
    Unimplemented,
}

/// The characters of an optional string.
pub open spec fn chars_of(s: Option<String>) -> Option<Seq<char>> {
    match s {
        Some(s) => Some(s@),
        None => None,
    }
}

/// The characters of an optional string slice.
pub open spec fn chars_of_str(s: Option<&str>) -> Option<Seq<char>> {
    match s {
        Some(s) => Some(s@),
        None => None,
    }
}

impl View for HomeDirErrorKind {
    type V = Failure;

    open spec fn view(&self) -> Failure {
        match self {
            HomeDirErrorKind::NotFound(user) => Failure::NotFound(chars_of(*user)),
            HomeDirErrorKind::OS(msg) => Failure::OS(chars_of(*msg)),
            HomeDirErrorKind::PermissionDenied(user) => Failure::PermissionDenied(user@),
            HomeDirErrorKind::Unimplemented => Failure::Unimplemented,
        }
    }
}

impl View for HomeDirError {
    type V = Failure;

    open spec fn view(&self) -> Failure {
        self.0@
    }
}

/// The text that presents a failure to a reader.
pub open spec fn failure_text(f: Failure) -> Seq<char> {
    match f {
        Failure::NotFound(Some(user)) => "Unable to find home directory for user "@ + user,
        Failure::NotFound(None) => "Unable to find home directory for current user"@,
        Failure::OS(Some(msg)) => "libc error while looking up home directory: "@ + msg,
        Failure::OS(None) => "libc error while looking up home directory"@,
        Failure::PermissionDenied(user) => "Permission denied while looking up home directory for user "@ + user,
        Failure::Unimplemented => "Identifying the home directory of a user other than the current user is not yet implemented for this platform"@,
    }
}

impl HomeDirError {
    /// No home directory was found for `user`, or for the current user where it is
    /// `None` or empty: the empty name and no name are the same user, and the failure
    /// names no one for either.
    pub fn not_found(user: Option<&str>) -> (e: HomeDirError)
        ensures
            e@ == Failure::NotFound(normalized(chars_of_str(user))),
    {
        let name = match user {
            Some(s) => {
                if s.is_empty() {
                    None
                } else {
                    Some(s.to_owned())
                }
            },
            None => None,
        };
        HomeDirError(HomeDirErrorKind::NotFound(name))
    }

    /// A native call failed, and `msg` says how.
    pub fn os_from_str(msg: &str) -> (e: HomeDirError)
        ensures
            e@ == Failure::OS(Some(msg@)),
    {
        HomeDirError(HomeDirErrorKind::OS(Some(msg.to_owned())))
    }

    /// A native call failed; `msg` is the system's message, where it gave one.
    pub fn os(msg: Option<String>) -> (e: HomeDirError)
        ensures
            e@ == Failure::OS(chars_of(msg)),
    {
        HomeDirError(HomeDirErrorKind::OS(msg))
    }

    /// The caller may not inspect the processes of `user`.
    pub fn permission_denied(user: &str) -> (e: HomeDirError)
        ensures
            e@ == Failure::PermissionDenied(user@),
    {
        HomeDirError(HomeDirErrorKind::PermissionDenied(user.to_owned()))
    }

    /// Resolving another user is not implemented on the platform.
    pub fn unimplemented() -> (e: HomeDirError)
        ensures
            e@ == Failure::Unimplemented,
    {
        HomeDirError(HomeDirErrorKind::Unimplemented)
    }

    /// The kind of the failure.
    pub fn kind(&self) -> (k: &HomeDirErrorKind)
        ensures
            k@ == self@,
    {
        &self.0
    }

    /// The text that presents the failure to a reader.
    pub fn message(&self) -> (text: String)
        ensures
            text@ == failure_text(self@),
    {
        match &self.0 {
            HomeDirErrorKind::NotFound(Some(user)) => {
                "Unable to find home directory for user ".to_owned().concat(user.as_str())
            },
            HomeDirErrorKind::NotFound(None) => {
                "Unable to find home directory for current user".to_owned()
            },
            HomeDirErrorKind::OS(Some(msg)) => {
                "libc error while looking up home directory: ".to_owned().concat(msg.as_str())
            },
            HomeDirErrorKind::OS(None) => "libc error while looking up home directory".to_owned(),
            HomeDirErrorKind::PermissionDenied(user) => {
                "Permission denied while looking up home directory for user ".to_owned().concat(user.as_str())
            },
            HomeDirErrorKind::Unimplemented => {
                "Identifying the home directory of a user other than the current user is not yet implemented for this platform".to_owned()
            },
        }
    }
}

} // verus!
