use vstd::prelude::*;

use crate::address::Endpoint;
use crate::relay::Datagram;

verus! {

/// An echo server over UDP.
pub struct UdpServer {
    address: String,
}

impl UdpServer {
    /// The address this server listens on.
    pub closed spec fn spec_address(&self) -> Seq<char> {
        self.address@
    }

    /// A server that will listen on `address`.
    pub fn new(address: &str) -> (res: Self)
        ensures
            res.spec_address() == address@,
    {
        Self { address: address.to_owned() }
    }

    /// The address this server listens on.
    pub fn address(&self) -> (res: &str)
        ensures
            res@ == self.spec_address(),
    {
        self.address.as_str()
    }

    /// The answer to a datagram: the same bytes, back to the sender. An
    /// empty datagram is answered with an empty one.
    pub fn echo_reply(datagram: &[u8], from: Endpoint) -> (res: Datagram)
        ensures
            res.to == from,
            res.payload@ == datagram@,
    {
        Datagram { to: from, payload: vstd::slice::slice_to_vec(datagram) }
    }
}

} // verus!
