use vstd::prelude::*;

verus! {

/// The transport a tunnel end speaks.
#[derive(Clone, Copy, Debug, PartialEq, Eq, Structural)]
pub enum Protocol {
    Tcp,
    Udp,
    Quic,
}

/// The transport the programs use.
pub const USING_PROTOCOL: Protocol = Protocol::Quic;

} // verus!
