//! Socket addresses as plain values.

use vstd::prelude::*;

verus! {

/// The host part of a socket address.
#[derive(Clone, Copy, Debug, PartialEq, Eq, Hash, Structural)]
pub enum Host {
    /// An IPv4 host; `bits` holds the four octets, the first one highest.
    V4 { bits: u32 },
    /// An IPv6 host; `segments` holds the eight groups, the first one highest.
    V6 { segments: u128, flowinfo: u32, scope_id: u32 },
}

/// The address of a node: the local one, or that of a peer.
#[derive(Clone, Copy, Debug, PartialEq, Eq, Hash, Structural)]
pub struct PeerAddr {
    pub host: Host,
    pub port: u16,
}

/// The 32 bits of the IPv4 host `a.b.c.d`.
pub open spec fn v4_bits(a: u8, b: u8, c: u8, d: u8) -> int {
    a as int * 0x100_0000 + b as int * 0x1_0000 + c as int * 0x100 + d as int
}

impl PeerAddr {
    /// The address `a.b.c.d:port`.
    pub fn v4(a: u8, b: u8, c: u8, d: u8, port: u16) -> (addr: PeerAddr)
        ensures
            addr.port == port,
            addr.host == (Host::V4 { bits: v4_bits(a, b, c, d) as u32 }),
            0 <= v4_bits(a, b, c, d) <= u32::MAX,
    {
        let bits: u32 = (a as u32) * 0x100_0000 + (b as u32) * 0x1_0000 + (c as u32) * 0x100 + (
        d as u32);
        PeerAddr { host: Host::V4 { bits }, port }
    }
}

} // verus!
