//! The library's own representation of a peer transport endpoint.

use vstd::prelude::*;

verus! {

/// A transport endpoint: an IP address held as the eight 16-bit groups of its
/// IPv6 form (IPv4 addresses in their IPv4-mapped form, `::ffff:a.b.c.d`),
/// plus a port.  This is exactly the address shape the Bitcoin wire format
/// itself uses, so no information is lost at the wire boundary.
#[derive(Clone, Copy, Debug, PartialEq, Eq)]
pub struct PeerAddr {
    /// The eight address groups, most significant first.
    pub segments: [u16; 8],
    /// The transport port.
    pub port: u16,
}

/// The IPv4-mapped IPv6 groups of the IPv4 address `a.b.c.d`:
/// five zero groups, then `0xFFFF`, then the four octets packed big-endian
/// into the last two groups.
pub fn ipv4_mapped_segments(a: u8, b: u8, c: u8, d: u8) -> (r: [u16; 8])
    ensures
        r@.len() == 8,
        r@[0] == 0 && r@[1] == 0 && r@[2] == 0 && r@[3] == 0 && r@[4] == 0,
        r@[5] == 0xFFFF,
        r@[6] == a as int * 256 + b as int,
        r@[7] == c as int * 256 + d as int,
{
    [
        0u16,
        0u16,
        0u16,
        0u16,
        0u16,
        0xFFFFu16,
        (a as u16) * 256 + (b as u16),
        (c as u16) * 256 + (d as u16),
    ]
}

/// The endpoint for the IPv4 address `a.b.c.d` on `port`.
pub fn ipv4_peer_addr(a: u8, b: u8, c: u8, d: u8, port: u16) -> (r: PeerAddr)
    ensures
        r.segments@.len() == 8,
        r.segments@[0] == 0 && r.segments@[1] == 0 && r.segments@[2] == 0 && r.segments@[3] == 0
            && r.segments@[4] == 0,
        r.segments@[5] == 0xFFFF,
        r.segments@[6] == a as int * 256 + b as int,
        r.segments@[7] == c as int * 256 + d as int,
        r.port == port,
{
    PeerAddr { segments: ipv4_mapped_segments(a, b, c, d), port }
}

} // verus!
