use vstd::prelude::*;

verus! {

/// `str`'s `==` of std: two slices are equal exactly where their characters are.
pub assume_specification[ <str as PartialEq>::eq ](a: &str, b: &str) -> (same: bool)
    ensures
        same == (a@ == b@),
;

/// Whose home directory is asked for.
#[derive(Debug, Clone)]
pub enum UserRef {
    /// The account that owns the calling process.
    Current,
    /// The account of this name. An empty name means the current user.
    Named(String),
}

/// The user that an optional name stands for: the name, unless it is absent or
/// empty, which both mean the current user (`None`).
pub open spec fn normalized(name: Option<Seq<char>>) -> Option<Seq<char>> {
    match name {
        Some(n) if n.len() > 0 => Some(n),
        _ => None,
    }
}

impl View for UserRef {
    type V = Option<Seq<char>>;

    /// The normalized name: `None` for the current user.
    open spec fn view(&self) -> Option<Seq<char>> {
        match self {
            UserRef::Current => None,
            UserRef::Named(name) => normalized(Some(name@)),
        }
    }
}

impl UserRef {
    /// The user that an optional name stands for.
    pub fn from_option(user: Option<&str>) -> (r: UserRef)
        ensures
            r@ == normalized(crate::home_dir::error::chars_of_str(user)),
            r matches UserRef::Named(name) ==> name@.len() > 0,
    {
        match user {
            Some(name) => {
                if name.is_empty() {
                    UserRef::Current
                } else {
                    UserRef::Named(name.to_owned())
                }
            },
            None => UserRef::Current,
        }
    }

    /// Whether this is the current user.
    pub fn is_current(&self) -> (b: bool)
        ensures
            b == (self@ is None),
    {
        match self {
            UserRef::Current => true,
            UserRef::Named(name) => name.as_str().is_empty(),
        }
    }

    /// The name, where this is not the current user.
    pub fn name(&self) -> (n: Option<&str>)
        ensures
            crate::home_dir::error::chars_of_str(n) == self@,
    {
        match self {
            UserRef::Current => None,
            UserRef::Named(name) => {
                if name.as_str().is_empty() {
                    None
                } else {
                    Some(name.as_str())
                }
            },
        }
    }

    /// Whether two references mean the same user: both the current one, or both the
    /// same name, character for character.
    pub fn same(&self, other: &UserRef) -> (b: bool)
        ensures
            b == (self@ == other@),
    {
        match self.name() {
            None => other.name().is_none(),
            Some(a) => match other.name() {
                None => false,
                Some(b) => a.eq(b),
            },
        }
    }
}

} // verus!
