//! The socket-address encoder.
//!
//! A resolved address is held as plain values: the host address octets, the
//! port, and for IPv6 the flow label and scope id.  Binding a socket needs the
//! OS's binary address structure instead, so this module lays an [`Address`]
//! out byte for byte as the kernel's family-specific structure expects it.
//! The layout targets the Linux-derived platform family on little-endian
//! machines: the family tag is a 16-bit value in native byte order, the port
//! is in network byte order, and the IPv6 flow label and scope id are stored
//! in native byte order exactly as supplied, matching what the platform's
//! generic UDP socket passes through.

use vstd::prelude::*;

verus! {

/// Address-family tag of an IPv4 socket address.
pub const AF_INET: u16 = 2;

/// Address-family tag of an IPv6 socket address.
pub const AF_INET6: u16 = 10;

/// Byte length of the kernel's IPv4 socket-address structure: family tag,
/// port, four address octets, and eight bytes of mandatory zero padding.
pub const SOCKADDR_V4_LEN: usize = 16;

/// Byte length of the kernel's IPv6 socket-address structure: family tag,
/// port, flow label, sixteen address octets, and scope id.
pub const SOCKADDR_V6_LEN: usize = 28;

/// A resolved socket address, immutable once constructed.
#[derive(Clone, Copy, Debug, PartialEq, Eq)]
#[allow(inconsistent_fields)]
pub enum Address {
    V4 { ip: [u8; 4], port: u16 },
    V6 { ip: [u8; 16], port: u16, flowinfo: u32, scope_id: u32 },
}

impl Address {
    /// The 16-bit address-family tag the kernel expects for this address.
    pub open spec fn spec_family(self) -> u16 {
        match self {
            Address::V4 { .. } => AF_INET,
            Address::V6 { .. } => AF_INET6,
        }
    }

    pub fn family(&self) -> (tag: u16)
        ensures
            tag == self.spec_family(),
    {
        match self {
            Address::V4 { .. } => AF_INET,
            Address::V6 { .. } => AF_INET6,
        }
    }
}

/// The two bytes of a 16-bit value in the native order of a little-endian
/// machine: least significant byte first.
pub open spec fn native16_bytes(x: u16) -> Seq<u8> {
    seq![(x % 256) as u8, (x / 256) as u8]
}

/// The two bytes of a 16-bit value in network byte order: most significant
/// byte first.
pub open spec fn network16_bytes(x: u16) -> Seq<u8> {
    seq![(x / 256) as u8, (x % 256) as u8]
}

/// The four bytes of a 32-bit value in the native order of a little-endian
/// machine: least significant byte first.
pub open spec fn native32_bytes(x: u32) -> Seq<u8> {
    seq![
        (x % 256) as u8,
        ((x / 256) % 256) as u8,
        ((x / 0x10000) % 256) as u8,
        ((x / 0x1000000) % 256) as u8,
    ]
}

/// The exact byte image of the kernel's socket-address structure for an
/// address: family tag (native order), port (network order), then for IPv4
/// the four address octets followed by the zero padding, and for IPv6 the
/// flow label (native order), the sixteen address octets, and the scope id
/// (native order).
pub open spec fn sockaddr_bytes(addr: Address) -> Seq<u8> {
    match addr {
        Address::V4 { ip, port } => native16_bytes(AF_INET) + network16_bytes(port) + ip@ + seq![
            0u8,
            0u8,
            0u8,
            0u8,
            0u8,
            0u8,
            0u8,
            0u8,
        ],
        Address::V6 { ip, port, flowinfo, scope_id } => native16_bytes(AF_INET6)
            + network16_bytes(port) + native32_bytes(flowinfo) + ip@ + native32_bytes(scope_id),
    }
}

/// The byte length of the kernel structure for this address family, which is
/// the length argument the bind call must receive.
pub open spec fn sockaddr_len(addr: Address) -> usize {
    match addr {
        Address::V4 { .. } => SOCKADDR_V4_LEN,
        Address::V6 { .. } => SOCKADDR_V6_LEN,
    }
}

/// Encode an address as the byte image of the kernel's family-specific
/// socket-address structure.  Total: encoding a well-formed address cannot
/// fail, and the returned buffer is exactly the structure's length.
pub fn encode_sockaddr(addr: &Address) -> (out: Vec<u8>)
    ensures
        out@ == sockaddr_bytes(*addr),
        out@.len() == sockaddr_len(*addr),
{
    let mut out: Vec<u8> = Vec::new();
    match addr {
        Address::V4 { ip, port } => {
            out.push((AF_INET % 256) as u8);
            out.push((AF_INET / 256) as u8);
            out.push((port / 256) as u8);
            out.push((port % 256) as u8);
            let mut i: usize = 0;
            while i < 4
                invariant
                    i <= 4,
                    out@.len() == 4 + i,
                    out@ == native16_bytes(AF_INET) + network16_bytes(*port) + ip@.take(i as int),
                decreases 4 - i,
            {
                out.push(ip[i]);
                proof {
                    assert(out@ =~= native16_bytes(AF_INET) + network16_bytes(*port) + ip@.take(
                        i + 1,
                    ));
                }
                i = i + 1;
            }
            let mut pad: usize = 0;
            while pad < 8
                invariant
                    pad <= 8,
                    out@.len() == 8 + pad,
                    out@ == native16_bytes(AF_INET) + network16_bytes(*port) + ip@ + Seq::new(
                        pad as nat,
                        |j: int| 0u8,
                    ),
                decreases 8 - pad,
            {
                out.push(0u8);
                proof {
                    assert(out@ =~= native16_bytes(AF_INET) + network16_bytes(*port) + ip@
                        + Seq::new((pad + 1) as nat, |j: int| 0u8));
                }
                pad = pad + 1;
            }
            proof {
                assert(out@ =~= sockaddr_bytes(*addr));
            }
        },
        Address::V6 { ip, port, flowinfo, scope_id } => {
            out.push((AF_INET6 % 256) as u8);
            out.push((AF_INET6 / 256) as u8);
            out.push((port / 256) as u8);
            out.push((port % 256) as u8);
            out.push((flowinfo % 256) as u8);
            out.push(((flowinfo / 256) % 256) as u8);
            out.push(((flowinfo / 0x10000) % 256) as u8);
            out.push(((flowinfo / 0x1000000) % 256) as u8);
            let mut i: usize = 0;
            while i < 16
                invariant
                    i <= 16,
                    out@.len() == 8 + i,
                    out@ == native16_bytes(AF_INET6) + network16_bytes(*port) + native32_bytes(
                        *flowinfo,
                    ) + ip@.take(i as int),
                decreases 16 - i,
            {
                out.push(ip[i]);
                proof {
                    assert(out@ =~= native16_bytes(AF_INET6) + network16_bytes(*port)
                        + native32_bytes(*flowinfo) + ip@.take(i + 1));
                }
                i = i + 1;
            }
            out.push((scope_id % 256) as u8);
            out.push(((scope_id / 256) % 256) as u8);
            out.push(((scope_id / 0x10000) % 256) as u8);
            out.push(((scope_id / 0x1000000) % 256) as u8);
            proof {
                assert(out@ =~= sockaddr_bytes(*addr));
            }
        },
    }
    out
}

} // verus!
