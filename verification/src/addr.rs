//! Network addresses as plain values.

use vstd::prelude::*;

verus! {

/// An IPv4 address, by its four octets in network order.
#[derive(Clone, Copy, Debug, PartialEq, Eq, Structural)]
pub struct Ipv4 {
    pub a: u8,
    pub b: u8,
    pub c: u8,
    pub d: u8,
}

impl Ipv4 {
    /// The address `a.b.c.d`.
    pub fn new(a: u8, b: u8, c: u8, d: u8) -> (ip: Ipv4)
        ensures
            ip == (Ipv4 { a, b, c, d }),
    {
        Ipv4 { a, b, c, d }
    }

    /// The four octets in network order.
    pub open spec fn octets_spec(self) -> Seq<u8> {
        seq![self.a, self.b, self.c, self.d]
    }

    /// The address with the given octets, in network order.
    pub fn from_octets(octets: [u8; 4]) -> (ip: Ipv4)
        ensures
            ip.octets_spec() == octets@,
    {
        let ip = Ipv4 { a: octets[0], b: octets[1], c: octets[2], d: octets[3] };
        assert(ip.octets_spec() =~= octets@);
        ip
    }

    /// The four octets in network order.
    pub fn octets(&self) -> (octets: [u8; 4])
        ensures
            octets@ == self.octets_spec(),
    {
        let octets: [u8; 4] = [self.a, self.b, self.c, self.d];
        assert(octets@ =~= self.octets_spec());
        octets
    }
}

/// An address as a peer or a command line may present it: IPv4, or IPv6
/// (kept by its 128 bits, which this crate never looks into).
#[derive(Clone, Copy, Debug, PartialEq, Eq, Structural)]
pub enum IpAddress {
    V4(Ipv4),
    V6(u128),
}

impl IpAddress {
    /// Whether this is an IPv6 address.
    pub fn is_ipv6(&self) -> (r: bool)
        ensures
            r == (*self is V6),
    {
        match self {
            IpAddress::V4(_) => false,
            IpAddress::V6(_) => true,
        }
    }

    /// What `match_ipv4` makes of an address.
    pub open spec fn match_ipv4_spec(self) -> Ipv4 {
        match self {
            IpAddress::V4(ip) => ip,
            IpAddress::V6(_) => Ipv4 { a: 0, b: 0, c: 0, d: 0 },
        }
    }

    /// The IPv4 address held, or `0.0.0.0` in place of an IPv6 address.
    pub fn match_ipv4(&self) -> (ip: Ipv4)
        ensures
            ip == self.match_ipv4_spec(),
    {
        match self {
            IpAddress::V4(ip) => *ip,
            IpAddress::V6(_) => Ipv4 { a: 0, b: 0, c: 0, d: 0 },
        }
    }
}

} // verus!
