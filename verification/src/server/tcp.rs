use vstd::prelude::*;

use super::EchoStep;

verus! {

/// An echo server over TCP.
pub struct TcpServer {
    address: String,
}

impl TcpServer {
    /// The address this server listens on.
    pub closed spec fn spec_address(&self) -> Seq<char> {
        self.address@
    }

    /// A server that will listen on `address`.
    pub fn new(address: &str) -> (res: Self)
        ensures
            res.spec_address() == address@,
    {
        Self { address: address.to_owned() }
    }

    /// The address this server listens on.
    pub fn address(&self) -> (res: &str)
        ensures
            res@ == self.spec_address(),
    {
        self.address.as_str()
    }

    /// One step of a client session: a read of no bytes means the client
    /// closed its side, and the session ends; anything read is written back.
    pub fn echo_step(read: &[u8]) -> (res: EchoStep)
        ensures
            read@.len() == 0 <==> res is Close,
            res matches EchoStep::Reply(r) ==> r@ == read@,
    {
        if read.len() == 0 {
            EchoStep::Close
        } else {
            EchoStep::Reply(vstd::slice::slice_to_vec(read))
        }
    }
}

} // verus!
