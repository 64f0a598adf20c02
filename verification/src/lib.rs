//! Verified core of a UDP-Lite socket library.
//!
//! UDP-Lite (IPPROTO_UDPLITE) is a datagram transport that allows partial
//! checksum coverage of the payload, so that corrupted bytes outside the
//! covered region are delivered rather than dropped.  This crate holds the
//! logic of such a socket library that can be reasoned about as plain values:
//! the checksum-coverage codec with its off-by-header-length wire encoding,
//! the binary socket-address encoder, the constant table and outcome
//! interpretation for each socket call, and the candidate-iteration rule of
//! `bind`.  The system calls themselves are performed by a thin unverified
//! shell around this crate, which feeds every kernel result back into the
//! verified interpretation functions found here.

pub mod addr;
pub mod bindflow;
pub mod coverage;
pub mod errors;
pub mod lifecycle;
