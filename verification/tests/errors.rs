use shellexpand::home_dir::buffer::{
    bytes_until_nul, copy_into_buffer, double_capacity, prefix, units_until_nul, ScratchBuffer,
};
use shellexpand::home_dir::{HomeDirError, HomeDirErrorKind, UserRef};
use shellexpand::LookupError;

#[test]
fn not_found_names_the_user() {
    assert_eq!(HomeDirError::not_found(Some("alice")).0, HomeDirErrorKind::NotFound(Some("alice".to_string())));
    assert_eq!(HomeDirError::not_found(None).0, HomeDirErrorKind::NotFound(None));
    assert_eq!(HomeDirError::not_found(Some("")).0, HomeDirErrorKind::NotFound(None));
    assert_eq!(HomeDirError::not_found(Some("")), HomeDirError::not_found(None));
}

#[test]
fn os_errors_carry_their_text() {
    assert_eq!(HomeDirError::os_from_str("boom").0, HomeDirErrorKind::OS(Some("boom".to_string())));
    assert_eq!(HomeDirError::os(None).0, HomeDirErrorKind::OS(None));
    assert_eq!(HomeDirError::os(Some("x".to_string())).0, HomeDirErrorKind::OS(Some("x".to_string())));
}

#[test]
fn permission_denied_names_the_user() {
    assert_eq!(
        HomeDirError::permission_denied("bob").0,
        HomeDirErrorKind::PermissionDenied("bob".to_string())
    );
    assert_eq!(HomeDirError::unimplemented().0, HomeDirErrorKind::Unimplemented);
    assert_eq!(HomeDirError::unimplemented().kind(), &HomeDirErrorKind::Unimplemented);
}

#[test]
fn messages_of_each_kind() {
    assert_eq!(
        HomeDirError::not_found(Some("alice")).message(),
        "Unable to find home directory for user alice"
    );
    assert_eq!(HomeDirError::not_found(None).message(), "Unable to find home directory for current user");
    assert_eq!(
        HomeDirError::os_from_str("No such process").message(),
        "libc error while looking up home directory: No such process"
    );
    assert_eq!(HomeDirError::os(None).message(), "libc error while looking up home directory");
    assert_eq!(
        HomeDirError::permission_denied("bob").message(),
        "Permission denied while looking up home directory for user bob"
    );
    assert_eq!(
        HomeDirError::unimplemented().message(),
        "Identifying the home directory of a user other than the current user is not yet implemented for this platform"
    );
}

#[test]
fn lookup_error_message() {
    let err = LookupError { name: "HOME".to_string(), cause: "not set" };
    assert_eq!(err.message(), "error looking key 'HOME' up: not set");
    let err = LookupError { name: String::new(), cause: 5 };
    assert_eq!(err.message(), "error looking key '' up: 5");
}

#[test]
fn empty_name_is_the_current_user() {
    assert!(UserRef::from_option(None).is_current());
    assert!(UserRef::from_option(Some("")).is_current());
    assert!(!UserRef::from_option(Some("root")).is_current());
    assert_eq!(UserRef::from_option(Some("root")).name(), Some("root"));
    assert_eq!(UserRef::from_option(Some("")).name(), None);
    assert_eq!(UserRef::Named(String::new()).name(), None);
}

#[test]
fn users_are_compared_by_normalized_name() {
    let current = UserRef::Current;
    let empty = UserRef::Named(String::new());
    let root = UserRef::Named("root".to_string());
    let other = UserRef::Named("Root".to_string());
    assert!(current.same(&empty));
    assert!(empty.same(&current));
    assert!(root.same(&UserRef::from_option(Some("root"))));
    assert!(!root.same(&other));
    assert!(!root.same(&current));
    assert!(!current.same(&root));
}

#[test]
fn names_are_copied_with_a_terminating_nul() {
    let mut buf = vec![9u8; 40];
    copy_into_buffer("root", &mut buf);
    assert_eq!(buf, b"root\0".to_vec());
    copy_into_buffer("", &mut buf);
    assert_eq!(buf, vec![0u8]);
    copy_into_buffer("\u{e9}", &mut buf);
    assert_eq!(buf, vec![0xc3, 0xa9, 0]);
}

#[test]
fn doubling_always_grows() {
    assert_eq!(double_capacity(0), Some(1));
    assert_eq!(double_capacity(1), Some(2));
    assert_eq!(double_capacity(1024), Some(2048));
    assert_eq!(double_capacity(usize::MAX / 2), Some(usize::MAX - 1));
    assert_eq!(double_capacity(usize::MAX / 2 + 1), None);
    assert_eq!(double_capacity(usize::MAX), None);
}

#[test]
fn scratch_buffers_never_shrink() {
    let mut buf = ScratchBuffer::new(2, 7u8);
    assert_eq!(buf.units, vec![7, 7]);
    assert_eq!(buf.len(), 2);
    buf.units[0] = 1;
    buf.grow_to(4, 0);
    assert_eq!(buf.units, vec![1, 7, 0, 0]);
    buf.grow_to(3, 9);
    assert_eq!(buf.units, vec![1, 7, 0, 0]);
    buf.grow_to(0, 9);
    assert_eq!(buf.len(), 4);
    let wide: ScratchBuffer<u16> = ScratchBuffer::new(0, 0);
    assert_eq!(wide.len(), 0);
}

#[test]
fn text_ends_at_the_first_nul() {
    assert_eq!(bytes_until_nul(b"/root\0junk\0"), Some(b"/root".to_vec()));
    assert_eq!(bytes_until_nul(b"\0"), Some(Vec::new()));
    assert_eq!(bytes_until_nul(b"no terminator"), None);
    assert_eq!(bytes_until_nul(b""), None);
    assert_eq!(units_until_nul(&[65, 66, 0, 67]), Some(vec![65, 66]));
    assert_eq!(units_until_nul(&[65, 66]), None);
    assert_eq!(prefix(&[1u32, 2, 3], 2), vec![1, 2]);
    assert_eq!(prefix(&[1u32, 2, 3], 0), Vec::<u32>::new());
}
