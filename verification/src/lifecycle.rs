//! Descriptor lifecycle decisions.
//!
//! A socket owns exactly one OS file descriptor.  Duplication and the
//! close-on-exec flag are handled by single OS calls performed outside this
//! crate; this module chooses which operation to request and interprets what
//! the kernel reports back.

use vstd::prelude::*;

use crate::errors::SocketError;

verus! {

/// Descriptor-flag bit meaning close-on-exec (Linux family).
pub const FD_CLOEXEC: i32 = 1;

/// Which close-on-exec operation to request from the OS.  The unverified
/// shell maps `Enable` to the flag-setting control call and `Disable` to the
/// flag-clearing one.
#[derive(Clone, Copy, Debug, PartialEq, Eq, Structural)]
pub enum CloexecRequest {
    Enable,
    Disable,
}

/// Choose the control call that realises the requested close-on-exec state.
/// Both calls are idempotent at the OS level, so requesting the current state
/// again succeeds and changes nothing.
pub fn cloexec_request(enable: bool) -> (req: CloexecRequest)
    ensures
        req == (if enable {
            CloexecRequest::Enable
        } else {
            CloexecRequest::Disable
        }),
{
    if enable {
        CloexecRequest::Enable
    } else {
        CloexecRequest::Disable
    }
}

/// Interpret the outcome of the descriptor-flag query: failure propagates the
/// OS error verbatim, and a returned flag word means close-on-exec exactly
/// when its close-on-exec bit is set.
pub fn interpret_fd_flags(ret: i32, errno: i32) -> (r: Result<bool, SocketError>)
    ensures
        ret == -1 ==> r == Err::<bool, SocketError>(SocketError::Os(errno)),
        ret != -1 ==> r == Ok::<bool, SocketError>((ret & FD_CLOEXEC) != 0),
{
    if ret == -1 {
        Err(SocketError::Os(errno))
    } else {
        Ok((ret & FD_CLOEXEC) != 0)
    }
}

} // verus!
