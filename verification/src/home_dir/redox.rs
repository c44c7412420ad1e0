use redox_users::auth::Basic;
use redox_users::{All, AllUsers};
use vstd::prelude::*;

use crate::home_dir::error::{chars_of, chars_of_str, Failure, HomeDirError};
use crate::home_dir::path::{result_view, PathView, ResolvedPath};
use crate::home_dir::user::{normalized, UserRef};

verus! {

/// `redox_users::AllUsers`, a snapshot of the user registry.
#[verifier::external_type_specification]
#[verifier::external_body]
#[verifier::reject_recursive_types(A)]
pub struct ExAllUsers<A>(AllUsers<A>);

/// `redox_users::auth::Basic`, the mark of a snapshot without passwords.
#[verifier::external_type_specification]
#[verifier::external_body]
pub struct ExBasic(Basic);

/// The accounts of a snapshot in the order of the registry, each as its login name,
/// its numeric identity and its home directory.
pub uninterp spec fn accounts(users: AllUsers<Basic>) -> Seq<(Seq<char>, usize, Seq<char>)>;

/// The home directory of the first account with the identity `uid`.
pub open spec fn home_of_id(accounts: Seq<(Seq<char>, usize, Seq<char>)>, uid: usize) -> Option<Seq<char>>
    decreases accounts.len(),
{
    if accounts.len() == 0 {
        None
    } else if accounts[0].1 == uid {
        Some(accounts[0].2)
    } else {
        home_of_id(accounts.drop_first(), uid)
    }
}

/// The home directory of the first account with the login name `name`.
pub open spec fn home_of_name(accounts: Seq<(Seq<char>, usize, Seq<char>)>, name: Seq<char>) -> Option<Seq<char>>
    decreases accounts.len(),
{
    if accounts.len() == 0 {
        None
    } else if accounts[0].0 == name {
        Some(accounts[0].2)
    } else {
        home_of_name(accounts.drop_first(), name)
    }
}

/// `AllUsers::basic` with `Config::default`: a snapshot of the registry, read from
/// the system's files. Whether there is one, and what it holds, is the system's to say.
#[verifier::external_body]
fn load_users() -> (users: Option<AllUsers<Basic>>)
{
    AllUsers::basic(redox_users::Config::default()).ok()
}

/// `All::get_by_id`, and the `home` of what it finds: the home directory of the first
/// account of the snapshot whose identity is `uid`.
#[verifier::external_body]
fn home_by_id(users: &AllUsers<Basic>, uid: usize) -> (home: Option<String>)
    ensures
        chars_of(home) == home_of_id(accounts(*users), uid),
{
    match users.get_by_id(uid) {
        Some(user) => Some(user.home.clone()),
        None => None,
    }
}

/// `All::get_by_name`, and the `home` of what it finds: the home directory of the
/// first account of the snapshot whose login name is `name`.
#[verifier::external_body]
fn home_by_name(users: &AllUsers<Basic>, name: &str) -> (home: Option<String>)
    ensures
        chars_of(home) == home_of_name(accounts(*users), name@),
{
    match users.get_by_name(name) {
        Some(user) => Some(user.home.clone()),
        None => None,
    }
}

/// What the registry gives for `user`: the current user is found by the identity
/// `uid` that the system reports for the process, any other by name. Whatever is
/// missing, the identity or the account, the user is not found; the failure names the
/// user, and no one for the current user, whether that was asked for by no name or by
/// the empty one.
pub open spec fn registry_result(
    accounts: Seq<(Seq<char>, usize, Seq<char>)>,
    user: Option<Seq<char>>,
    uid: Option<usize>,
) -> Result<PathView, Failure> {
    let home = match normalized(user) {
        None => match uid {
            Some(id) => home_of_id(accounts, id),
            None => None,
        },
        Some(name) => home_of_name(accounts, name),
    };
    match home {
        Some(path) => Ok(PathView::Text(path)),
        None => Err(Failure::NotFound(normalized(user))),
    }
}

/// The empty name and no name are the same user: whatever the registry holds, both
/// get the same result, the payload of a failure included.
pub proof fn lemma_empty_name_is_current(accounts: Seq<(Seq<char>, usize, Seq<char>)>, uid: Option<usize>)
    ensures
        registry_result(accounts, Some(Seq::empty()), uid) == registry_result(accounts, None, uid),
{
}

/// An identity that some account has is found: the home directory is that of the
/// first such account.
pub proof fn lemma_home_of_id(accounts: Seq<(Seq<char>, usize, Seq<char>)>, uid: usize, i: int)
    requires
        0 <= i < accounts.len(),
        accounts[i].1 == uid,
        forall|j: int| 0 <= j < i ==> (#[trigger] accounts[j]).1 != uid,
    ensures
        home_of_id(accounts, uid) == Some(accounts[i].2),
    decreases accounts.len(),
{
    if i > 0 {
        let rest = accounts.drop_first();
        assert(accounts[0].1 != uid);
        assert forall|j: int| 0 <= j < i - 1 implies (#[trigger] rest[j]).1 != uid by {
            assert(rest[j] == accounts[j + 1]);
        }
        assert(rest[i - 1] == accounts[i]);
        lemma_home_of_id(rest, uid, i - 1);
    }
}

/// A name that some account has is found: the home directory is that of the first
/// such account.
pub proof fn lemma_home_of_name(accounts: Seq<(Seq<char>, usize, Seq<char>)>, name: Seq<char>, i: int)
    requires
        0 <= i < accounts.len(),
        accounts[i].0 == name,
        forall|j: int| 0 <= j < i ==> (#[trigger] accounts[j]).0 != name,
    ensures
        home_of_name(accounts, name) == Some(accounts[i].2),
    decreases accounts.len(),
{
    if i > 0 {
        let rest = accounts.drop_first();
        assert(accounts[0].0 != name);
        assert forall|j: int| 0 <= j < i - 1 implies (#[trigger] rest[j]).0 != name by {
            assert(rest[j] == accounts[j + 1]);
        }
        assert(rest[i - 1] == accounts[i]);
        lemma_home_of_name(rest, name, i - 1);
    }
}

/// The current user is resolved whenever the registry has an account with the
/// identity of the process: the result is the home directory of the first such
/// account, and the same snapshot gives the same path every time.
pub proof fn lemma_current_user_resolves(
    accounts: Seq<(Seq<char>, usize, Seq<char>)>,
    user: Option<Seq<char>>,
    uid: usize,
    i: int,
)
    requires
        normalized(user) is None,
        0 <= i < accounts.len(),
        accounts[i].1 == uid,
        forall|j: int| 0 <= j < i ==> (#[trigger] accounts[j]).1 != uid,
    ensures
        registry_result(accounts, user, Some(uid)) == Ok::<PathView, Failure>(PathView::Text(accounts[i].2)),
{
    lemma_home_of_id(accounts, uid, i);
}

/// The home directory of `user` according to the snapshot `users`, `uid` being the
/// identity that the system reports for the process.
pub fn resolve_in(users: &AllUsers<Basic>, user: Option<&str>, uid: Option<usize>) -> (r: Result<
    ResolvedPath,
    HomeDirError,
>)
    ensures
        result_view(r) == registry_result(accounts(*users), chars_of_str(user), uid),
{
    let home = match UserRef::from_option(user).name() {
        None => match uid {
            Some(id) => home_by_id(users, id),
            None => None,
        },
        Some(name) => home_by_name(users, name),
    };
    match home {
        Some(path) => Ok(ResolvedPath::Text(path)),
        None => Err(HomeDirError::not_found(user)),
    }
}

/// The home directory of `user` according to the user registry, of which one
/// snapshot is taken; `uid` is the identity that the system reports for the process,
/// which is looked at for the current user only. A registry that cannot be read holds
/// nobody.
pub fn home_dir(user: Option<&str>, uid: Option<usize>) -> (r: Result<ResolvedPath, HomeDirError>)
    ensures
        match r {
            Ok(path) => exists|users: AllUsers<Basic>|
                result_view(r) == registry_result(accounts(users), chars_of_str(user), uid),
            Err(e) => e@ == Failure::NotFound(normalized(chars_of_str(user))),
        },
{
    match load_users() {
        None => Err(HomeDirError::not_found(user)),
        Some(users) => resolve_in(&users, user, uid),
    }
}

} // verus!
