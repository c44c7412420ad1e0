use std::path::PathBuf;
use vstd::prelude::*;

use crate::home_dir::error::{chars_of, chars_of_str, Failure, HomeDirError};
use crate::home_dir::path::{result_view, PathView, ResolvedPath};
use crate::home_dir::user::{normalized, UserRef};

verus! {

/// `dirs::home_dir`: the home directory of the user who runs the process, where the
/// system has one. The answer depends on the environment and on the system's accounts,
/// so nothing is claimed of it.
pub assume_specification[ dirs::home_dir ]() -> (found: Option<PathBuf>)
;

/// The result for the current user, given what the system has as its home directory:
/// that directory as it came, and `NotFound` where there is none.
pub open spec fn current_result(found: Option<PathBuf>) -> Result<PathView, Failure> {
    match found {
        Some(path) => Ok(PathView::Native(path)),
        None => Err(Failure::NotFound(None)),
    }
}

/// The result for the current user, given what the system has as its home directory.
/// It depends on `found` alone, so the same answer of the system gives the same path.
pub fn current_home(found: Option<PathBuf>) -> (r: Result<ResolvedPath, HomeDirError>)
    ensures
        result_view(r) == current_result(found),
{
    match found {
        Some(path) => Ok(ResolvedPath::Native(path)),
        None => Err(HomeDirError::not_found(None)),
    }
}

/// The home directory of the current user, on a platform that can resolve no other:
/// a request for a named user is `Unimplemented`.
pub fn home_dir(user: Option<&str>) -> (r: Result<ResolvedPath, HomeDirError>)
    ensures
        match normalized(chars_of_str(user)) {
            Some(_) => result_view(r) == Err::<PathView, Failure>(Failure::Unimplemented),
            None => exists|found: Option<PathBuf>| result_view(r) == current_result(found),
        },
{
    match UserRef::from_option(user) {
        UserRef::Current => current_home(dirs::home_dir()),
        UserRef::Named(_) => Err(HomeDirError::unimplemented()),
    }
}

/// What a platform without any native way to ask makes of the one environment
/// variable that names the home directory: the current user's home directory is the
/// value of the variable, unmodified, where it is set and not empty, and is not found
/// otherwise; a request for a named user is `Unimplemented`.
pub open spec fn variable_result(user: Option<Seq<char>>, value: Option<Seq<char>>) -> Result<PathView, Failure> {
    match normalized(user) {
        Some(_) => Err(Failure::Unimplemented),
        None => match value {
            Some(v) if v.len() > 0 => Ok(PathView::Text(v)),
            _ => Err(Failure::NotFound(None)),
        },
    }
}

/// The empty name and no name are the same user: both get the same result from the
/// system's answer, and from the variable.
pub proof fn lemma_empty_name_is_current(value: Option<Seq<char>>)
    ensures
        variable_result(Some(Seq::empty()), value) == variable_result(None, value),
        normalized(Some(Seq::<char>::empty())) == normalized(None),
{
}

/// The home directory of `user` where all there is to go by is `value`, the value of
/// the environment variable that names the home directory (`None`: it is not set).
pub fn home_from_variable(user: Option<&str>, value: Option<String>) -> (r: Result<ResolvedPath, HomeDirError>)
    ensures
        result_view(r) == variable_result(chars_of_str(user), chars_of(value)),
{
    match UserRef::from_option(user) {
        UserRef::Named(_) => Err(HomeDirError::unimplemented()),
        UserRef::Current => match value {
            Some(v) => {
                if v.as_str().is_empty() {
                    Err(HomeDirError::not_found(None))
                } else {
                    Ok(ResolvedPath::Text(v))
                }
            },
            None => Err(HomeDirError::not_found(None)),
        },
    }
}

} // verus!
