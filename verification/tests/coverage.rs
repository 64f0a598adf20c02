use udplite::coverage::coverage_from_getsockopt;
use udplite::coverage::decode_coverage;
use udplite::coverage::encode_coverage;
use udplite::coverage::MAX_COVERAGE;
use udplite::coverage::UDPLITE_RECV_CSCOV;
use udplite::coverage::UDPLITE_SEND_CSCOV;
use udplite::errors::interpret_status_call;
use udplite::errors::SocketError;

#[test]
fn encode_exact_values() {
    assert_eq!(encode_coverage(None), 0);
    assert_eq!(encode_coverage(Some(0)), 8);
    assert_eq!(encode_coverage(Some(5)), 13);
    assert_eq!(encode_coverage(Some(100)), 108);
    assert_eq!(encode_coverage(Some(MAX_COVERAGE)), 0xFFFF);
}

#[test]
fn decode_exact_values() {
    assert_eq!(decode_coverage(0), Ok(None));
    assert_eq!(decode_coverage(8), Ok(Some(0)));
    assert_eq!(decode_coverage(13), Ok(Some(5)));
    assert_eq!(decode_coverage(108), Ok(Some(100)));
    assert_eq!(decode_coverage(0xFFFF), Ok(Some(MAX_COVERAGE)));
}

#[test]
fn coverage_round_trips() {
    for n in [0u16, 1, 7, 8, 100, 0x1234, MAX_COVERAGE] {
        assert_eq!(decode_coverage(encode_coverage(Some(n))), Ok(Some(n)));
    }
    assert_eq!(decode_coverage(encode_coverage(None)), Ok(None));
}

#[test]
fn decode_rejects_partial_header_coverage() {
    for wire in 1..=7 {
        assert_eq!(decode_coverage(wire), Err(SocketError::PartialHeaderCoverage));
    }
}

#[test]
fn decode_rejects_out_of_range() {
    assert_eq!(decode_coverage(-1), Err(SocketError::CoverageOutOfRange));
    assert_eq!(decode_coverage(-0x8000), Err(SocketError::CoverageOutOfRange));
    assert_eq!(decode_coverage(0x10000), Err(SocketError::CoverageOutOfRange));
    assert_eq!(decode_coverage(i32::MAX), Err(SocketError::CoverageOutOfRange));
}

#[test]
fn getsockopt_outcomes() {
    assert_eq!(coverage_from_getsockopt(0, 0, 108), Ok(Some(100)));
    assert_eq!(coverage_from_getsockopt(0, 0, 0), Ok(None));
    assert_eq!(coverage_from_getsockopt(0, 0, 3), Err(SocketError::PartialHeaderCoverage));
    assert_eq!(coverage_from_getsockopt(-1, 9, 108), Err(SocketError::Os(9)));
    assert_eq!(coverage_from_getsockopt(5, 0, 108), Err(SocketError::UnexpectedSockoptReturn));
}

#[test]
fn status_call_outcomes() {
    assert_eq!(interpret_status_call(0, 0), Ok(()));
    assert_eq!(interpret_status_call(-1, 22), Err(SocketError::Os(22)));
}

#[test]
fn coverage_option_names_are_distinct() {
    assert_eq!(UDPLITE_SEND_CSCOV, 10);
    assert_eq!(UDPLITE_RECV_CSCOV, 11);
    assert_ne!(UDPLITE_SEND_CSCOV, UDPLITE_RECV_CSCOV);
}
