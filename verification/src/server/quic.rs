use vstd::prelude::*;

use super::EchoStep;

verus! {

/// An echo server over QUIC.
pub struct QuicServer {
    address: String,
}

impl QuicServer {
    /// The address this server listens on.
    pub closed spec fn spec_address(&self) -> Seq<char> {
        self.address@
    }

    /// A server that will listen on `address`.
    pub fn new(address: &str) -> (res: Self)
        ensures
            res.spec_address() == address@,
    {
        Self { address: address.to_owned() }
    }

    /// The address this server listens on.
    pub fn address(&self) -> (res: &str)
        ensures
            res@ == self.spec_address(),
    {
        self.address.as_str()
    }

    /// One step of a connection's stream: `None` (the peer finished the
    /// stream) or a read of no bytes ends it; anything read is written back.
    pub fn echo_step(read: Option<&[u8]>) -> (res: EchoStep)
        ensures
            res is Close <==> (read is None || read->0@.len() == 0),
            res matches EchoStep::Reply(r) ==> (read is Some && r@ == read->0@),
    {
        match read {
            None => EchoStep::Close,
            Some(bytes) => {
                if bytes.len() == 0 {
                    EchoStep::Close
                } else {
                    EchoStep::Reply(vstd::slice::slice_to_vec(bytes))
                }
            },
        }
    }
}

} // verus!
