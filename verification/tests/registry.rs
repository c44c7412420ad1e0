use std::io::Write;

use redox_users::auth::Basic;
use redox_users::{All, AllUsers, Config};
use shellexpand::home_dir::path::ResolvedPath;
use shellexpand::home_dir::redox::{home_dir, resolve_in};
use shellexpand::home_dir::HomeDirError;

/// A snapshot of a registry of four accounts, two of which share an identity and two
/// a name.
fn snapshot() -> AllUsers<Basic> {
    let root = tempfile::tempdir().unwrap();
    let etc = tempfile::Builder::new().prefix("etc").rand_bytes(0).tempdir_in(root.path()).unwrap();
    let mut passwd = tempfile::Builder::new().prefix("passwd").rand_bytes(0).tempfile_in(etc.path()).unwrap();
    passwd
        .write_all(
            b"root;0;0;root;/root;/bin/ion\n\
              user;1000;1000;User;/home/user;/bin/ion\n\
              twin;1000;1000;Twin;/home/twin;/bin/ion\n\
              user;1001;1001;Late;/home/late;/bin/ion\n",
        )
        .unwrap();
    passwd.flush().unwrap();
    AllUsers::basic(Config::default().scheme(root.path().to_str().unwrap().to_string())).unwrap()
}

#[test]
fn registry_finds_accounts_by_name() {
    let users = snapshot();
    assert_eq!(resolve_in(&users, Some("root"), None), Ok(ResolvedPath::Text("/root".to_string())));
    assert_eq!(resolve_in(&users, Some("user"), Some(0)), Ok(ResolvedPath::Text("/home/user".to_string())));
    assert_eq!(resolve_in(&users, Some("twin"), None), Ok(ResolvedPath::Text("/home/twin".to_string())));
    assert_eq!(resolve_in(&users, Some("User"), None), Err(HomeDirError::not_found(Some("User"))));
    assert_eq!(resolve_in(&users, Some("nobody"), Some(0)), Err(HomeDirError::not_found(Some("nobody"))));
    assert_eq!(resolve_in(&users, Some("/root"), Some(0)), Err(HomeDirError::not_found(Some("/root"))));
}

#[test]
fn registry_finds_the_current_user_by_identity() {
    let users = snapshot();
    assert_eq!(resolve_in(&users, None, Some(0)), Ok(ResolvedPath::Text("/root".to_string())));
    assert_eq!(resolve_in(&users, None, Some(1000)), Ok(ResolvedPath::Text("/home/user".to_string())));
    assert_eq!(resolve_in(&users, Some(""), Some(1000)), Ok(ResolvedPath::Text("/home/user".to_string())));
    assert_eq!(resolve_in(&users, None, Some(1001)), Ok(ResolvedPath::Text("/home/late".to_string())));
    assert_eq!(resolve_in(&users, None, Some(7)), Err(HomeDirError::not_found(None)));
    assert_eq!(resolve_in(&users, None, None), Err(HomeDirError::not_found(None)));
    assert_eq!(resolve_in(&users, Some(""), None), Err(HomeDirError::not_found(None)));
    assert_eq!(resolve_in(&users, Some(""), Some(7)), resolve_in(&users, None, Some(7)));
}

#[test]
fn registry_lookups_give_the_first_match() {
    // Where the system has no registry in this form, there is nothing to look up.
    if let Ok(users) = AllUsers::basic(Config::default()) {
        for user in users.iter() {
            let by_name = users.iter().find(|u| u.user == user.user).unwrap();
            assert_eq!(
                resolve_in(&users, Some(user.user.as_str()), None),
                if user.user.is_empty() {
                    Err(HomeDirError::not_found(None))
                } else {
                    Ok(ResolvedPath::Text(by_name.home.clone()))
                }
            );
            let by_id = users.iter().find(|u| u.uid == user.uid).unwrap();
            assert_eq!(resolve_in(&users, None, Some(user.uid)), Ok(ResolvedPath::Text(by_id.home.clone())));
            assert_eq!(resolve_in(&users, Some(""), Some(user.uid)), Ok(ResolvedPath::Text(by_id.home.clone())));
        }
        assert_eq!(resolve_in(&users, None, None), Err(HomeDirError::not_found(None)));
        assert_eq!(
            resolve_in(&users, Some("no-such-user-in-any-registry"), Some(0)),
            Err(HomeDirError::not_found(Some("no-such-user-in-any-registry")))
        );
    }
}

#[test]
fn registry_takes_the_empty_name_for_no_name() {
    for uid in [None, Some(0), Some(usize::MAX)] {
        assert_eq!(home_dir(Some(""), uid), home_dir(None, uid));
    }
    if let Ok(users) = AllUsers::basic(Config::default()) {
        for uid in [None, Some(0), Some(usize::MAX)] {
            assert_eq!(resolve_in(&users, Some(""), uid), resolve_in(&users, None, uid));
        }
        assert_eq!(resolve_in(&users, Some(""), None), Err(HomeDirError::not_found(None)));
    }
}

#[test]
fn registry_misses_are_not_found() {
    match home_dir(Some("no-such-user-in-any-registry"), Some(0)) {
        Err(e) => assert_eq!(e, HomeDirError::not_found(Some("no-such-user-in-any-registry"))),
        Ok(path) => panic!("found {:?}", path),
    }
    match home_dir(None, Some(0)) {
        Ok(ResolvedPath::Text(_)) => {}
        Ok(other) => panic!("a registry gives text, not {:?}", other),
        Err(e) => assert_eq!(e, HomeDirError::not_found(None)),
    }
    match home_dir(Some(""), None) {
        Ok(ResolvedPath::Text(_)) => {}
        Ok(other) => panic!("a registry gives text, not {:?}", other),
        Err(e) => assert_eq!(e, HomeDirError::not_found(None)),
    }
}
