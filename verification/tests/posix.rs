use shellexpand::home_dir::nix::{
    os_from_buffer, start, step, PosixAction, PosixEvent, PosixPhase, PosixState, LOOKUP_CAPACITY,
    MESSAGE_CAPACITY, MESSAGE_LIMIT,
};
use shellexpand::home_dir::other::{current_home, home_dir, home_from_variable};
use shellexpand::home_dir::path::ResolvedPath;
use shellexpand::home_dir::{HomeDirError, HomeDirErrorKind};
use std::path::PathBuf;

fn waiting(user: &str, capacity: usize) -> PosixState {
    PosixState { phase: PosixPhase::AwaitLookup { capacity }, user: user.to_string(), range_code: libc::ERANGE }
}

fn describing(errnum: i32, capacity: usize) -> PosixState {
    PosixState {
        phase: PosixPhase::AwaitMessage { errnum, capacity },
        user: "root".to_string(),
        range_code: libc::ERANGE,
    }
}

fn finished(result: Result<ResolvedPath, HomeDirError>) -> PosixAction {
    PosixAction::Finish(result)
}

#[test]
fn current_user_is_asked_of_the_system() {
    let expected = match dirs::home_dir() {
        Some(path) => Ok(ResolvedPath::Native(path)),
        None => Err(HomeDirError::not_found(None)),
    };
    let (state, action) = start(None, 1);
    assert_eq!(state.phase, PosixPhase::Done);
    assert_eq!(action, finished(expected.clone()));
    let (state, action) = start(Some(""), 1024);
    assert_eq!(state.phase, PosixPhase::Done);
    assert_eq!(action, finished(expected));
}

#[test]
fn current_user_resolves_the_same_every_time() {
    let (_, first) = start(None, 1);
    for _ in 0..100 {
        let (_, again) = start(None, 1);
        assert_eq!(again, first);
    }
    assert_eq!(home_dir(None), home_dir(Some("")));
}

#[test]
fn current_home_is_what_the_system_has() {
    assert_eq!(
        current_home(Some(PathBuf::from("/home/alice"))),
        Ok(ResolvedPath::Native(PathBuf::from("/home/alice")))
    );
    assert_eq!(current_home(None), Err(HomeDirError::not_found(None)));
}

#[test]
fn named_user_is_looked_up_with_a_small_buffer() {
    let (state, action) = start(Some("root"), LOOKUP_CAPACITY);
    assert_eq!(state.phase, PosixPhase::AwaitLookup { capacity: 1 });
    assert_eq!(state.user, "root");
    assert_eq!(state.range_code, libc::ERANGE);
    assert_ne!(state.range_code, 0);
    assert_eq!(action, PosixAction::Lookup { name: b"root\0".to_vec(), capacity: 1 });
    let (state, action) = start(Some("root"), 4096);
    assert_eq!(state.phase, PosixPhase::AwaitLookup { capacity: 4096 });
    assert_eq!(action, PosixAction::Lookup { name: b"root\0".to_vec(), capacity: 4096 });
}

#[test]
fn lookup_grows_the_buffer_until_the_entry_fits() {
    let need = 100;
    let (mut state, mut action) = start(Some("root"), 1);
    let mut capacities = Vec::new();
    let result = loop {
        match action {
            PosixAction::Lookup { name, capacity } => {
                assert_eq!(name, b"root\0".to_vec());
                capacities.push(capacity);
                let event = if capacity < need {
                    PosixEvent::Lookup { status: libc::ERANGE, found: false, dir: None }
                } else {
                    PosixEvent::Lookup { status: 0, found: true, dir: Some(b"/root".to_vec()) }
                };
                let next = step(state, event);
                state = next.0;
                action = next.1;
            }
            PosixAction::Finish(result) => break result,
            other => panic!("unexpected action {:?}", other),
        }
    };
    assert_eq!(capacities, vec![1, 2, 4, 8, 16, 32, 64, 128]);
    assert_eq!(result, Ok(ResolvedPath::Bytes(b"/root".to_vec())));
    assert_eq!(state.phase, PosixPhase::Done);
}

#[test]
fn an_empty_buffer_grows_too() {
    let (state, action) =
        step(waiting("root", 0), PosixEvent::Lookup { status: libc::ERANGE, found: false, dir: None });
    assert_eq!(state.phase, PosixPhase::AwaitLookup { capacity: 1 });
    assert_eq!(action, PosixAction::Lookup { name: b"root\0".to_vec(), capacity: 1 });
}

#[test]
fn a_buffer_that_cannot_grow_ends_the_lookup() {
    let (state, action) = step(
        waiting("root", usize::MAX / 2 + 1),
        PosixEvent::Lookup { status: libc::ERANGE, found: false, dir: None },
    );
    assert_eq!(state.phase, PosixPhase::Done);
    assert_eq!(action, finished(Err(HomeDirError::os(None))));
}

#[test]
fn no_entry_is_not_found_and_no_os_error() {
    let (state, action) =
        step(waiting("nobody-here", 64), PosixEvent::Lookup { status: 0, found: false, dir: None });
    assert_eq!(state.phase, PosixPhase::Done);
    assert_eq!(action, finished(Err(HomeDirError::not_found(Some("nobody-here")))));
    let (_, action) = step(
        waiting("nobody-here", 64),
        PosixEvent::Lookup { status: 0, found: false, dir: Some(b"/stale".to_vec()) },
    );
    assert_eq!(action, finished(Err(HomeDirError(HomeDirErrorKind::NotFound(Some("nobody-here".to_string()))))));
}

#[test]
fn an_entry_without_a_directory_is_an_unknown_os_error() {
    let (_, action) = step(waiting("root", 64), PosixEvent::Lookup { status: 0, found: true, dir: None });
    assert_eq!(action, finished(Err(HomeDirError(HomeDirErrorKind::OS(None)))));
}

#[test]
fn the_directory_is_passed_through_verbatim() {
    let dir = vec![b'/', 0xff, b'/', b' ', b'/'];
    let (_, action) =
        step(waiting("root", 64), PosixEvent::Lookup { status: 0, found: true, dir: Some(dir.clone()) });
    assert_eq!(action, finished(Ok(ResolvedPath::Bytes(dir))));
}

#[test]
fn another_status_asks_for_the_text_of_the_error() {
    let (state, action) =
        step(waiting("root", 64), PosixEvent::Lookup { status: libc::EIO, found: false, dir: None });
    assert_eq!(state.phase, PosixPhase::AwaitMessage { errnum: libc::EIO, capacity: MESSAGE_CAPACITY });
    assert_eq!(action, PosixAction::Describe { errnum: libc::EIO, capacity: 1024 });
}

#[test]
fn the_text_of_the_error_is_what_precedes_the_nul() {
    let mut text = b"Input/output error".to_vec();
    text.resize(1024, 0);
    let (state, action) = step(describing(libc::EIO, 1024), PosixEvent::Message { status: 0, text });
    assert_eq!(state.phase, PosixPhase::Done);
    assert_eq!(action, finished(Err(HomeDirError::os_from_str("Input/output error"))));
}

#[test]
fn a_text_without_nul_is_no_text() {
    let (_, action) =
        step(describing(libc::EIO, 4), PosixEvent::Message { status: 0, text: b"full".to_vec() });
    assert_eq!(action, finished(Err(HomeDirError::os(None))));
    assert_eq!(os_from_buffer(b"full"), HomeDirError::os(None));
}

#[test]
fn text_that_is_not_utf8_is_read_with_replacements() {
    assert_eq!(os_from_buffer(b"bad \xff byte\0rest"), HomeDirError::os_from_str("bad \u{fffd} byte"));
    assert_eq!(os_from_buffer(b"\0"), HomeDirError::os_from_str(""));
}

#[test]
fn the_request_for_the_text_is_repeated_up_to_a_limit() {
    let (state, action) =
        step(describing(libc::EIO, 1024), PosixEvent::Message { status: libc::ERANGE, text: vec![0; 1024] });
    assert_eq!(state.phase, PosixPhase::AwaitMessage { errnum: libc::EIO, capacity: 2048 });
    assert_eq!(action, PosixAction::Describe { errnum: libc::EIO, capacity: 2048 });

    let (state, action) = step(
        describing(libc::EIO, MESSAGE_LIMIT / 2),
        PosixEvent::Message { status: libc::ERANGE, text: Vec::new() },
    );
    assert_eq!(state.phase, PosixPhase::AwaitMessage { errnum: libc::EIO, capacity: 65536 });
    assert_eq!(action, PosixAction::Describe { errnum: libc::EIO, capacity: MESSAGE_LIMIT });

    let (state, action) = step(
        describing(libc::EIO, MESSAGE_LIMIT),
        PosixEvent::Message { status: libc::ERANGE, text: Vec::new() },
    );
    assert_eq!(state.phase, PosixPhase::Done);
    assert_eq!(action, finished(Err(HomeDirError::os(None))));
}

#[test]
fn a_failed_request_for_the_text_leaves_the_error_without_text() {
    let (_, action) = step(
        describing(libc::EIO, 1024),
        PosixEvent::Message { status: libc::EINVAL, text: b"Unknown error\0".to_vec() },
    );
    assert_eq!(action, finished(Err(HomeDirError::os(None))));
}

#[test]
fn a_report_out_of_turn_ends_the_resolution() {
    let (state, action) = step(waiting("root", 8), PosixEvent::Message { status: 0, text: b"x\0".to_vec() });
    assert_eq!(state.phase, PosixPhase::Done);
    assert_eq!(action, finished(Err(HomeDirError::os(None))));
    let (state, action) = step(state, PosixEvent::Lookup { status: 0, found: true, dir: Some(b"/".to_vec()) });
    assert_eq!(state.phase, PosixPhase::Done);
    assert_eq!(action, finished(Err(HomeDirError::os(None))));
}

#[test]
fn fallback_resolves_the_current_user_only() {
    assert_eq!(home_dir(Some("root")), Err(HomeDirError::unimplemented()));
    let expected = match dirs::home_dir() {
        Some(path) => Ok(ResolvedPath::Native(path)),
        None => Err(HomeDirError::not_found(None)),
    };
    assert_eq!(home_dir(None), expected);
    assert_eq!(home_dir(Some("")), expected);
}

#[test]
fn fallback_reads_the_variable_unmodified() {
    assert_eq!(home_from_variable(None, None), Err(HomeDirError::not_found(None)));
    assert_eq!(home_from_variable(None, Some(String::new())), Err(HomeDirError::not_found(None)));
    assert_eq!(home_from_variable(Some(""), None), Err(HomeDirError::not_found(None)));
    assert_eq!(
        home_from_variable(None, Some("/home/alice/".to_string())),
        Ok(ResolvedPath::Text("/home/alice/".to_string()))
    );
    assert_eq!(
        home_from_variable(Some(""), Some(" ~ ".to_string())),
        Ok(ResolvedPath::Text(" ~ ".to_string()))
    );
    assert_eq!(home_from_variable(Some("bob"), Some("/home/alice".to_string())), Err(HomeDirError::unimplemented()));
    assert_eq!(home_from_variable(Some("bob"), None), Err(HomeDirError::unimplemented()));
}
