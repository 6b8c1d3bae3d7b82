//! Network endpoints as plain values.

use vstd::prelude::*;

verus! {

/// An IP address of either family, as the integer that its octets spell in
/// network byte order.
#[derive(Clone, Copy, Debug, PartialEq, Eq, Hash, Structural)]
pub enum IpAddress {
    V4(u32),
    V6(u128),
}

/// An address and a port: where a peer was last observed.
#[derive(Clone, Copy, Debug, PartialEq, Eq, Hash, Structural)]
pub struct Endpoint {
    pub ip: IpAddress,
    pub port: u16,
}

impl Endpoint {
    /// The IPv4 endpoint `0.0.0.0:0`, which stands for "no address known".
    pub open spec fn unspecified_spec() -> Endpoint {
        Endpoint { ip: IpAddress::V4(0), port: 0 }
    }

    #[verifier::when_used_as_spec(unspecified_spec)]
    pub fn unspecified() -> (e: Endpoint)
        ensures
            e == Endpoint::unspecified_spec(),
    {
        Endpoint { ip: IpAddress::V4(0), port: 0 }
    }

    /// Whether both endpoints have the same address: same family and same
    /// value, ports ignored. An IPv4 address never equals an IPv6 one.
    pub open spec fn same_ip_spec(&self, other: &Endpoint) -> bool {
        self.ip == other.ip
    }

    #[verifier::when_used_as_spec(same_ip_spec)]
    pub fn same_ip(&self, other: &Endpoint) -> (same: bool)
        ensures
            same == self.same_ip_spec(other),
    {
        match self.ip {
            IpAddress::V4(a) => match other.ip {
                IpAddress::V4(b) => a == b,
                IpAddress::V6(_) => false,
            },
            IpAddress::V6(a) => match other.ip {
                IpAddress::V4(_) => false,
                IpAddress::V6(b) => a == b,
            },
        }
    }
}

} // verus!
