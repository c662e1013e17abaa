//! Which failures of `accept` leave the listening socket usable.

use std::io::ErrorKind;
use vstd::prelude::*;

verus! {

/// `EMFILE`: too many open files in this process.
///
/// The value is the same on Linux, macOS and the BSDs.
pub const EMFILE: i32 = 24;

/// `ENFILE`: too many open files system-wide.
///
/// The value is the same on Linux, macOS and the BSDs.
pub const ENFILE: i32 = 23;

/// The I/O error of the standard library.
#[verifier::external_type_specification]
#[verifier::external_body]
pub struct ExIoError(std::io::Error);

/// The error kinds that matter to a serve loop, the rest taken together.
#[derive(Debug, Clone, Copy, PartialEq, Eq, Structural)]
pub enum AcceptErrorKind {
    /// The peer gave up between its SYN and our `accept`.
    ConnectionAborted,
    /// A signal interrupted the call.
    Interrupted,
    /// Nothing to accept right now.
    WouldBlock,
    /// Every other kind.
    Other,
}

/// What is known of a failed `accept`.
#[derive(Debug, Clone, Copy, PartialEq, Eq, Structural)]
pub struct AcceptFault {
    pub kind: AcceptErrorKind,
    /// The errno value behind the error, if the operating system reported it. Targets other than
    /// Unix have no errno values.
    pub errno: Option<i32>,
}

/// The kind of an I/O error, as `std::io::Error::kind` gives it on the platform that the process
/// runs on.
pub uninterp spec fn io_error_kind(e: std::io::Error) -> AcceptErrorKind;

/// The operating system's code of an I/O error, as `std::io::Error::raw_os_error` gives it.
pub uninterp spec fn io_error_code(e: std::io::Error) -> Option<i32>;

/// Calls `std::io::Error::kind`.
///
/// Claimed: the kind is settled by the error value. The three kinds that are told apart map to
/// the variants of the same name, every other kind to `Other`.
#[verifier::external_body]
fn error_kind(e: &std::io::Error) -> (kind: AcceptErrorKind)
    ensures
        kind == io_error_kind(*e),
{
    match e.kind() {
        ErrorKind::ConnectionAborted => AcceptErrorKind::ConnectionAborted,
        ErrorKind::Interrupted => AcceptErrorKind::Interrupted,
        ErrorKind::WouldBlock => AcceptErrorKind::WouldBlock,
        _ => AcceptErrorKind::Other,
    }
}

/// `std::io::Error::raw_os_error`. Claimed: the code is settled by the error value.
pub assume_specification[ std::io::Error::raw_os_error ](e: &std::io::Error) -> (code: Option<i32>)
    ensures
        code == io_error_code(*e),
;

impl AcceptFault {
    /// The failure is transient: the peer went away, the call was interrupted or premature, or
    /// file descriptors ran out.
    pub open spec fn transient(self) -> bool {
        ||| self.kind == AcceptErrorKind::ConnectionAborted
        ||| self.kind == AcceptErrorKind::Interrupted
        ||| self.kind == AcceptErrorKind::WouldBlock
        ||| self.errno == Some(EMFILE)
        ||| self.errno == Some(ENFILE)
    }

    /// What the standard library's error says of a failed `accept`, on a Unix target or elsewhere.
    pub open spec fn spec_of(e: std::io::Error, unix: bool) -> AcceptFault {
        AcceptFault {
            kind: io_error_kind(e),
            errno: if unix {
                io_error_code(e)
            } else {
                None
            },
        }
    }

    /// Reads off an I/O error what decides whether to go on serving. `unix` tells whether the
    /// program runs on a Unix target: only there are the operating system's codes errno values.
    pub fn of(e: &std::io::Error, unix: bool) -> (fault: AcceptFault)
        ensures
            fault == AcceptFault::spec_of(*e, unix),
            fault.kind == io_error_kind(*e),
            unix ==> fault.errno == io_error_code(*e),
            !unix ==> fault.errno is None,
    {
        AcceptFault {
            kind: error_kind(e),
            errno: if unix {
                e.raw_os_error()
            } else {
                None
            },
        }
    }

    /// Whether the listening socket is still good after this failure.
    pub fn is_recoverable(&self) -> (recoverable: bool)
        ensures
            recoverable == self.transient(),
            self.kind is ConnectionAborted ==> recoverable,
            self.kind is Interrupted ==> recoverable,
            self.kind is WouldBlock ==> recoverable,
            self.kind is Other ==> (recoverable <==> self.errno == Some(24i32) || self.errno
                == Some(23i32)),
    {
        if matches!(
            self.kind,
            AcceptErrorKind::ConnectionAborted | AcceptErrorKind::Interrupted
                | AcceptErrorKind::WouldBlock
        ) {
            return true;
        }
        match self.errno {
            Some(code) => code == EMFILE || code == ENFILE,
            None => false,
        }
    }
}

/// Whether a serve loop should back off and go on after this `accept` error, instead of ending.
///
/// The kinds count everywhere. The codes of a lack of file descriptors count on Unix targets only,
/// which `unix` tells: elsewhere the same numbers mean something else.
pub fn is_recoverable_accept_error(e: &std::io::Error, unix: bool) -> (recoverable: bool)
    ensures
        recoverable == AcceptFault::spec_of(*e, unix).transient(),
        io_error_kind(*e) is ConnectionAborted ==> recoverable,
        io_error_kind(*e) is Interrupted ==> recoverable,
        io_error_kind(*e) is WouldBlock ==> recoverable,
        io_error_kind(*e) is Other ==> (recoverable <==> unix && (io_error_code(*e) == Some(24i32)
            || io_error_code(*e) == Some(23i32))),
{
    AcceptFault::of(e, unix).is_recoverable()
}

/// A failure of one of the three transient kinds is transient with whatever errno value the
/// operating system reported, and without one.
pub proof fn transient_kinds_are_transient_with_any_errno(fault: AcceptFault)
    requires
        fault.kind is ConnectionAborted || fault.kind is Interrupted || fault.kind is WouldBlock,
    ensures
        fault.transient(),
{
}

/// Of the failures of any other kind, those by a lack of file descriptors are transient and no
/// others: an errno value of 24 or 23 is needed, and enough.
pub proof fn other_failures_are_transient_for_lack_of_fds_only(fault: AcceptFault)
    requires
        fault.kind is Other,
    ensures
        fault.transient() <==> fault.errno == Some(24i32) || fault.errno == Some(23i32),
{
}

/// A code never makes a failure worse: what is transient without an errno value is transient with
/// any, and with the two of a lack of file descriptors every failure is.
pub proof fn errno_never_makes_a_failure_worse(kind: AcceptErrorKind, code: i32)
    ensures
        (AcceptFault { kind, errno: None }).transient() ==> (AcceptFault {
            kind,
            errno: Some(code),
        }).transient(),
        code == 24 || code == 23 ==> (AcceptFault { kind, errno: Some(code) }).transient(),
{
}

/// What is read off an error is its kind, everywhere, and its code, on Unix and nowhere else.
pub proof fn fault_holds_what_the_error_says(e: std::io::Error)
    ensures
        AcceptFault::spec_of(e, true).kind == io_error_kind(e),
        AcceptFault::spec_of(e, true).errno == io_error_code(e),
        AcceptFault::spec_of(e, false).kind == io_error_kind(e),
        AcceptFault::spec_of(e, false).errno is None,
{
}

} // verus!
