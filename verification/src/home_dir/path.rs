use std::path::PathBuf;
use vstd::prelude::*;

verus! {

/// `std::path::PathBuf`, a path in the platform's own form. Nothing is known of what
/// it holds.
#[verifier::external_type_specification]
#[verifier::external_body]
pub struct ExPathBuf(PathBuf);

/// `PathBuf`'s `clone` of std: the copy is the same path.
pub assume_specification[ <PathBuf as Clone>::clone ](path: &PathBuf) -> (copy: PathBuf)
    ensures
        copy == *path,
;

/// A home directory as the platform gave it, with nothing normalized.
#[derive(Debug, Clone, PartialEq, Eq)]
pub enum ResolvedPath {
    /// A path of the platform, handed through as it came.
    Native(PathBuf),
    /// The bytes of a path, without a terminating NUL.
    Bytes(Vec<u8>),
    /// The 16-bit units of a path, without a terminating NUL.
    Wide(Vec<u16>),
    /// A path given as text.
    Text(String),
}

/// A resolved path as a plain value.
pub enum PathView {
    Native(PathBuf),
    Bytes(Seq<u8>),
    Wide(Seq<u16>),
    Text(Seq<char>),
}

impl View for ResolvedPath {
    type V = PathView;

    open spec fn view(&self) -> PathView {
        match self {
            ResolvedPath::Native(p) => PathView::Native(*p),
            ResolvedPath::Bytes(b) => PathView::Bytes(b@),
            ResolvedPath::Wide(w) => PathView::Wide(w@),
            ResolvedPath::Text(t) => PathView::Text(t@),
        }
    }
}

/// A result as a plain value.
pub open spec fn result_view(r: Result<ResolvedPath, crate::home_dir::error::HomeDirError>) -> Result<PathView, crate::home_dir::error::Failure> {
    match r {
        Ok(p) => Ok(p@),
        Err(e) => Err(e@),
    }
}

} // verus!
