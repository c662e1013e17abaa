use std::io::{Error, ErrorKind};
use wss_rpc::accept::{AcceptErrorKind, AcceptFault};
use wss_rpc::is_recoverable_accept_error;

#[test]
fn fd_exhaustion_accept_errors_are_recoverable() {
    // EMFILE/ENFILE must not terminate the daemon.
    assert!(is_recoverable_accept_error(&Error::from_raw_os_error(24), true)); // EMFILE
    assert!(is_recoverable_accept_error(&Error::from_raw_os_error(23), true)); // ENFILE
}

#[test]
fn transient_kinds_recover_but_fatal_propagates() {
    assert!(is_recoverable_accept_error(&Error::from(ErrorKind::ConnectionAborted), true));
    assert!(is_recoverable_accept_error(&Error::from(ErrorKind::Interrupted), true));
    // A non-transient error is not swallowed (loop will propagate it).
    assert!(!is_recoverable_accept_error(&Error::from(ErrorKind::InvalidInput), true));
}

#[test]
fn would_block_is_recoverable() {
    assert!(is_recoverable_accept_error(&Error::from(ErrorKind::WouldBlock), true));
}

#[test]
fn other_os_errors_are_fatal() {
    // EBADF, EINVAL
    assert!(!is_recoverable_accept_error(&Error::from_raw_os_error(9), true));
    assert!(!is_recoverable_accept_error(&Error::from_raw_os_error(22), true));
}

#[test]
fn custom_errors_count_by_kind() {
    assert!(is_recoverable_accept_error(&Error::new(ErrorKind::Interrupted, "signal"), true));
    assert!(!is_recoverable_accept_error(&Error::new(ErrorKind::PermissionDenied, "refused"), true));
}

#[test]
fn faults_are_read_off_io_errors() {
    assert_eq!(
        AcceptFault::of(&Error::from(ErrorKind::ConnectionAborted), true),
        AcceptFault {
            kind: AcceptErrorKind::ConnectionAborted,
            errno: None
        }
    );
    assert_eq!(
        AcceptFault::of(&Error::from(ErrorKind::WouldBlock), true).kind,
        AcceptErrorKind::WouldBlock
    );
    assert_eq!(
        AcceptFault::of(&Error::from(ErrorKind::Interrupted), true).kind,
        AcceptErrorKind::Interrupted
    );
    assert_eq!(
        AcceptFault::of(&Error::from_raw_os_error(24), true),
        AcceptFault {
            kind: AcceptErrorKind::Other,
            errno: Some(24)
        }
    );
}

#[test]
fn codes_count_on_unix_only() {
    for code in [24, 23] {
        let e = Error::from_raw_os_error(code);
        assert!(is_recoverable_accept_error(&e, true));
        assert!(!is_recoverable_accept_error(&e, false));
        assert_eq!(AcceptFault::of(&e, true).errno, Some(code));
        assert_eq!(AcceptFault::of(&e, false).errno, None);
    }
}

#[test]
fn kinds_count_everywhere() {
    for kind in [
        ErrorKind::ConnectionAborted,
        ErrorKind::Interrupted,
        ErrorKind::WouldBlock,
    ] {
        assert!(is_recoverable_accept_error(&Error::from(kind), false));
    }
    assert!(!is_recoverable_accept_error(&Error::from(ErrorKind::InvalidInput), false));
}
