use udplite::addr::encode_sockaddr;
use udplite::addr::Address;
use udplite::addr::AF_INET;
use udplite::addr::AF_INET6;
use udplite::addr::SOCKADDR_V4_LEN;
use udplite::addr::SOCKADDR_V6_LEN;

#[test]
fn family_tags() {
    let v4 = Address::V4 { ip: [127, 0, 0, 1], port: 0 };
    let v6 = Address::V6 { ip: [0; 16], port: 0, flowinfo: 0, scope_id: 0 };
    assert_eq!(v4.family(), AF_INET);
    assert_eq!(v6.family(), AF_INET6);
}

#[test]
fn encode_v4_loopback() {
    let addr = Address::V4 { ip: [127, 0, 0, 1], port: 8080 };
    let bytes = encode_sockaddr(&addr);
    assert_eq!(bytes.len(), SOCKADDR_V4_LEN);
    let expected = vec![
        2, 0, // AF_INET, native order
        0x1F, 0x90, // port 8080, network order
        127, 0, 0, 1, // host address octets
        0, 0, 0, 0, 0, 0, 0, 0, // zero padding
    ];
    assert_eq!(bytes, expected);
}

#[test]
fn encode_v4_any_port_zero() {
    let addr = Address::V4 { ip: [0, 0, 0, 0], port: 0 };
    let bytes = encode_sockaddr(&addr);
    assert_eq!(bytes, vec![2, 0, 0, 0, 0, 0, 0, 0, 0, 0, 0, 0, 0, 0, 0, 0]);
}

#[test]
fn encode_v6_loopback() {
    let mut ip = [0u8; 16];
    ip[15] = 1;
    let addr = Address::V6 { ip, port: 443, flowinfo: 0x11223344, scope_id: 0xAABBCCDD };
    let bytes = encode_sockaddr(&addr);
    assert_eq!(bytes.len(), SOCKADDR_V6_LEN);
    let expected = vec![
        10, 0, // AF_INET6, native order
        0x01, 0xBB, // port 443, network order
        0x44, 0x33, 0x22, 0x11, // flow label, native order
        0, 0, 0, 0, 0, 0, 0, 0, 0, 0, 0, 0, 0, 0, 0, 1, // host address octets
        0xDD, 0xCC, 0xBB, 0xAA, // scope id, native order
    ];
    assert_eq!(bytes, expected);
}

#[test]
fn encode_v6_any() {
    let addr = Address::V6 { ip: [0; 16], port: 0, flowinfo: 0, scope_id: 0 };
    let bytes = encode_sockaddr(&addr);
    let mut expected = vec![0u8; SOCKADDR_V6_LEN];
    expected[0] = 10;
    assert_eq!(bytes, expected);
}
