use vstd::prelude::*;

verus! {

/// Why a socket operation failed.
///
/// Kernel failures are propagated verbatim: they carry the `errno` value the
/// OS reported, and the unverified shell turns that number back into the
/// platform's error type.  The remaining variants are conditions this library
/// detects itself.
#[derive(Clone, Copy, Debug, PartialEq, Eq, Structural)]
pub enum SocketError {
    /// The address specification resolved to zero candidate addresses,
    /// so there was nothing to bind to.
    NoAddresses,
    /// An OS call failed; the field is the `errno` value it reported.
    Os(i32),
    /// A queried coverage value lay strictly between zero and the UDP-Lite
    /// header length.  Such a value would cover only part of the protocol
    /// header; a correct OS never returns it, so it signals a consistency
    /// problem rather than a failed call.
    PartialHeaderCoverage,
    /// A queried coverage value was negative or exceeded the 16-bit wire
    /// range.  As above, no OS call failed; the value itself is impossible.
    CoverageOutOfRange,
    /// `getsockopt` returned a status other than success or failure.
    UnexpectedSockoptReturn,
}

/// Interpret the status of an OS call that reports nothing but success or
/// failure, such as a `setsockopt` or a descriptor-flag control call: `-1`
/// propagates the error number in effect verbatim, anything else is success.
pub fn interpret_status_call(ret: i32, errno: i32) -> (r: Result<(), SocketError>)
    ensures
        ret == -1 ==> r == Err::<(), SocketError>(SocketError::Os(errno)),
        ret != -1 ==> r == Ok::<(), SocketError>(()),
{
    if ret == -1 {
        Err(SocketError::Os(errno))
    } else {
        Ok(())
    }
}

} // verus!
