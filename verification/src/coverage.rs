//! The checksum-coverage codec.
//!
//! UDP-Lite's socket options express coverage in *protocol-covered* bytes:
//! the wire value counts the fixed-size protocol header together with the
//! covered payload bytes, and the value `0` is the sentinel for "cover the
//! whole datagram".  The public abstraction counts *payload* bytes only, as
//! `Option<u16>`: `None` for full coverage, `Some(n)` for exactly `n` payload
//! bytes.  This module translates between the two and classifies every value
//! the kernel could hand back.

use vstd::prelude::*;

use crate::errors::SocketError;

verus! {

/// Size of the UDP-Lite protocol header in bytes.  The wire encoding of a
/// partial coverage value is the payload byte count plus this constant.
pub const UDPLITE_HEADER_SIZE: u16 = 8;

/// Largest payload byte count whose wire encoding still fits the protocol's
/// 16-bit coverage field.
pub const MAX_COVERAGE: u16 = 0xFFF7;

/// Option name of the send-side coverage option (Linux family).
pub const UDPLITE_SEND_CSCOV: i32 = 10;

/// Option name of the receive-filter coverage option (Linux family).  Note
/// the platform asymmetry: the Linux family enforces the filter as a lower
/// bound on the coverage of accepted datagrams, while the BSD family also
/// discards datagrams whose coverage exceeds the filter, requiring an exact
/// match.  This layer sets the value and does not unify those semantics.
pub const UDPLITE_RECV_CSCOV: i32 = 11;

/// Wire encoding of a coverage value: `None` (cover the whole datagram)
/// becomes the sentinel `0`, and `Some(n)` (cover `n` payload bytes) becomes
/// `n` plus the header length.
pub open spec fn coverage_to_wire(coverage: Option<u16>) -> int {
    match coverage {
        None => 0,
        Some(payload) => payload + UDPLITE_HEADER_SIZE,
    }
}

/// Interpretation of a wire coverage value reported by the kernel:
/// `0` means full coverage; a value of at least the header length and at most
/// `0xFFFF` covers `value - header length` payload bytes; a value strictly
/// inside `(0, header length)` would cover only part of the header and is
/// rejected as inconsistent; anything negative or above the 16-bit range is
/// rejected as out of range.
pub open spec fn wire_to_coverage(wire: int) -> Result<Option<u16>, SocketError> {
    if wire == 0 {
        Ok(None)
    } else if UDPLITE_HEADER_SIZE <= wire <= 0xFFFF {
        Ok(Some((wire - UDPLITE_HEADER_SIZE) as u16))
    } else if 0 < wire < UDPLITE_HEADER_SIZE {
        Err(SocketError::PartialHeaderCoverage)
    } else {
        Err(SocketError::CoverageOutOfRange)
    }
}

/// Encode a coverage value for `setsockopt`.  Total: every `Option<u16>`
/// encodes, and the result always fits the native-width signed option value.
pub fn encode_coverage(coverage: Option<u16>) -> (wire: i32)
    ensures
        wire == coverage_to_wire(coverage),
{
    match coverage {
        None => 0,
        Some(payload) => payload as i32 + UDPLITE_HEADER_SIZE as i32,
    }
}

/// Decode a coverage value reported by a successful `getsockopt` call.
pub fn decode_coverage(wire: i32) -> (coverage: Result<Option<u16>, SocketError>)
    ensures
        coverage == wire_to_coverage(wire as int),
{
    if wire == 0 {
        Ok(None)
    } else if UDPLITE_HEADER_SIZE as i32 <= wire && wire <= 0xFFFF {
        Ok(Some((wire - UDPLITE_HEADER_SIZE as i32) as u16))
    } else if 0 < wire && wire < UDPLITE_HEADER_SIZE as i32 {
        Err(SocketError::PartialHeaderCoverage)
    } else {
        Err(SocketError::CoverageOutOfRange)
    }
}

/// Interpret the full outcome of a coverage `getsockopt` call: `ret` is the
/// call's return status, `errno` the error number in effect after it, and
/// `wire` the value stored into the option buffer.  A failed call propagates
/// the OS error verbatim; a successful call decodes the stored value; any
/// other status is reported as unexpected.
pub fn coverage_from_getsockopt(ret: i32, errno: i32, wire: i32) -> (r: Result<
    Option<u16>,
    SocketError,
>)
    ensures
        ret == 0 ==> r == wire_to_coverage(wire as int),
        ret == -1 ==> r == Err::<Option<u16>, SocketError>(SocketError::Os(errno)),
        ret != 0 && ret != -1 ==> r == Err::<Option<u16>, SocketError>(
            SocketError::UnexpectedSockoptReturn,
        ),
{
    if ret == 0 {
        decode_coverage(wire)
    } else if ret == -1 {
        Err(SocketError::Os(errno))
    } else {
        Err(SocketError::UnexpectedSockoptReturn)
    }
}

/// Law: every representable coverage value survives a round trip through the
/// wire encoding.  `None` encodes to the sentinel and decodes back to `None`;
/// `Some(n)` with `n` at most `MAX_COVERAGE` encodes to `n` plus the header
/// length and decodes back to exactly `Some(n)`.
pub proof fn lemma_coverage_round_trip(coverage: Option<u16>)
    requires
        coverage matches Some(payload) ==> payload <= MAX_COVERAGE,
    ensures
        wire_to_coverage(coverage_to_wire(coverage)) == Ok::<Option<u16>, SocketError>(coverage),
{
}

/// Law: the wire encoding is the inverse of decoding on every value a correct
/// OS can report.  If a wire value decodes successfully, encoding the decoded
/// coverage yields the original wire value again.
pub proof fn lemma_wire_round_trip(wire: int)
    requires
        wire_to_coverage(wire) is Ok,
    ensures
        coverage_to_wire(wire_to_coverage(wire)->Ok_0) == wire,
{
}

} // verus!
