use vstd::prelude::*;

verus! {

/// An IP address, IPv4 held as its 32-bit big-endian value, IPv6 as its
/// 128-bit big-endian value.
#[derive(Clone, Copy, Debug, PartialEq, Eq, Structural)]
pub enum IpAddress {
    V4(u32),
    V6(u128),
}

/// A transport endpoint (an IP address and a port), with the IPv6 flow label
/// and scope that a socket address of that family carries.
#[allow(inconsistent_fields)]
#[derive(Clone, Copy, Debug, PartialEq, Eq, Structural)]
pub enum Endpoint {
    V4 { ip: u32, port: u16 },
    V6 { ip: u128, port: u16, flowinfo: u32, scope_id: u32 },
}

/// The IPv4 address `a.b.c.d`.
pub open spec fn spec_ipv4(a: u8, b: u8, c: u8, d: u8) -> u32 {
    ((a as u32) * 0x100_0000 + (b as u32) * 0x1_0000 + (c as u32) * 0x100 + (d as u32)) as u32
}

/// Builds the IPv4 address `a.b.c.d`.
pub fn ipv4(a: u8, b: u8, c: u8, d: u8) -> (res: IpAddress)
    ensures
        res == IpAddress::V4(spec_ipv4(a, b, c, d)),
{
    let v: u32 = (a as u32) * 0x100_0000 + (b as u32) * 0x1_0000 + (c as u32) * 0x100 + (d as u32);
    IpAddress::V4(v)
}

impl Endpoint {
    /// The address part of an endpoint.
    pub open spec fn spec_ip(self) -> IpAddress {
        match self {
            Endpoint::V4 { ip, .. } => IpAddress::V4(ip),
            Endpoint::V6 { ip, .. } => IpAddress::V6(ip),
        }
    }

    /// The port part of an endpoint.
    pub open spec fn spec_port(self) -> u16 {
        match self {
            Endpoint::V4 { port, .. } => port,
            Endpoint::V6 { port, .. } => port,
        }
    }

    /// The address part of an endpoint.
    pub fn ip(&self) -> (res: IpAddress)
        ensures
            res == self.spec_ip(),
    {
        match self {
            Endpoint::V4 { ip, .. } => IpAddress::V4(*ip),
            Endpoint::V6 { ip, .. } => IpAddress::V6(*ip),
        }
    }

    /// The port part of an endpoint.
    pub fn port(&self) -> (res: u16)
        ensures
            res == self.spec_port(),
    {
        match self {
            Endpoint::V4 { port, .. } => *port,
            Endpoint::V6 { port, .. } => *port,
        }
    }

    /// The wildcard endpoint of the same family as `self`, port 0: the local
    /// address a client binds before it talks to `self`.
    pub open spec fn spec_unspecified_of_family(self) -> Endpoint {
        match self {
            Endpoint::V4 { .. } => Endpoint::V4 { ip: 0, port: 0 },
            Endpoint::V6 { .. } => Endpoint::V6 { ip: 0, port: 0, flowinfo: 0, scope_id: 0 },
        }
    }

    /// The local endpoint a client socket is bound to before it sends to
    /// `self`: the unspecified address of the same family, with port 0 so that
    /// the system picks one.
    pub fn client_bind_endpoint(&self) -> (res: Endpoint)
        ensures
            res == self.spec_unspecified_of_family(),
            *self is V4 ==> res == (Endpoint::V4 { ip: 0, port: 0 }),
            *self is V6 ==> res == (Endpoint::V6 { ip: 0, port: 0, flowinfo: 0, scope_id: 0 }),
    {
        match self {
            Endpoint::V4 { .. } => Endpoint::V4 { ip: 0, port: 0 },
            Endpoint::V6 { .. } => Endpoint::V6 { ip: 0, port: 0, flowinfo: 0, scope_id: 0 },
        }
    }
}

/// The bind endpoint of a client keeps the family of the server it talks to,
/// with the wildcard address and port 0, whatever the server's address and port:
/// an IPv4 server gives `0.0.0.0:0`, an IPv6 server gives `[::]:0` with no flow
/// label and no scope.
pub proof fn lemma_client_bind_same_family(e: Endpoint)
    ensures
        e is V4 ==> e.spec_unspecified_of_family() == (Endpoint::V4 { ip: 0, port: 0 }),
        e is V6 ==> e.spec_unspecified_of_family() == (Endpoint::V6 {
            ip: 0,
            port: 0,
            flowinfo: 0,
            scope_id: 0,
        }),
        (e.spec_unspecified_of_family() is V4) == (e is V4),
        e.spec_unspecified_of_family().spec_port() == 0,
        e.spec_unspecified_of_family().spec_ip() == (if e is V4 {
            IpAddress::V4(0)
        } else {
            IpAddress::V6(0)
        }),
{
}

} // verus!
