pub mod quic;
pub mod tcp;
pub mod udp;

use vstd::prelude::*;

use crate::protocol::Protocol;
use quic::QuicServer;
use tcp::TcpServer;
use udp::UdpServer;

verus! {

/// Size of the buffer an echo session reads into.
pub const ECHO_BUFFER_SIZE: usize = 1024;

/// What an echo session does after one read.
#[derive(Debug)]
pub enum EchoStep {
    /// The peer finished: end the session.
    Close,
    /// Write these bytes back, then read again.
    Reply(Vec<u8>),
}

/// A server of one of the supported transports.
pub enum ServerInstance {
    Tcp(TcpServer),
    Udp(UdpServer),
    Quic(QuicServer),
}

impl ServerInstance {
    /// The transport this server speaks.
    pub open spec fn spec_protocol(&self) -> Protocol {
        match self {
            ServerInstance::Tcp(_) => Protocol::Tcp,
            ServerInstance::Udp(_) => Protocol::Udp,
            ServerInstance::Quic(_) => Protocol::Quic,
        }
    }

    /// The address this server listens on.
    pub open spec fn spec_address(&self) -> Seq<char> {
        match self {
            ServerInstance::Tcp(s) => s.spec_address(),
            ServerInstance::Udp(s) => s.spec_address(),
            ServerInstance::Quic(s) => s.spec_address(),
        }
    }

    /// The transport this server speaks.
    pub fn protocol(&self) -> (res: Protocol)
        ensures
            res == self.spec_protocol(),
    {
        match self {
            ServerInstance::Tcp(_) => Protocol::Tcp,
            ServerInstance::Udp(_) => Protocol::Udp,
            ServerInstance::Quic(_) => Protocol::Quic,
        }
    }
}

/// The server for `protocol`, to listen on `address`.
pub fn create_server(protocol: Protocol, address: &str) -> (res: ServerInstance)
    ensures
        res.spec_protocol() == protocol,
        res.spec_address() == address@,
{
    match protocol {
        Protocol::Tcp => ServerInstance::Tcp(TcpServer::new(address)),
        Protocol::Udp => ServerInstance::Udp(UdpServer::new(address)),
        Protocol::Quic => ServerInstance::Quic(QuicServer::new(address)),
    }
}

} // verus!
