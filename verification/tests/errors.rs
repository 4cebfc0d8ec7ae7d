use dmexec::error::{Error, PERMISSION_DENIED};

#[test]
fn permission_denied_matches_libc() {
    assert_eq!(PERMISSION_DENIED, libc::EACCES);
}

#[test]
fn permission_denied_code_suppressed() {
    let e = Error::from_os(libc::EACCES, "open fail");
    assert!(e.code.is_none());
    assert_eq!(e.msg, "open fail");
}

#[test]
fn other_codes_are_retained() {
    let e = Error::from_os(libc::EAGAIN, "fork fail");
    assert_eq!(e.code, Some(libc::EAGAIN));
    assert_eq!(e.msg, "fork fail");
}

#[test]
fn message_without_code() {
    let e = Error::from_os(libc::EACCES, "boom");
    assert_eq!(e.message(), "Error<boom>");
}

#[test]
fn message_with_code_keeps_the_frame() {
    let e = Error::from_os(libc::ENOENT, "boom");
    let m = e.message();
    assert!(m.starts_with("Error<"));
    assert!(m.ends_with(": boom>"));
    assert!(m.len() > "Error<boom>".len());
}

#[test]
fn diagnostic_starts_with_the_step() {
    let d = Error::diagnostic("setsid fail", libc::EPERM);
    assert!(d.starts_with("setsid fail: "));
}
