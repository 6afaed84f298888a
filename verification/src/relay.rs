use vstd::prelude::*;

use crate::address::Endpoint;
use crate::capsule::{capsule_bytes, capsule_decodable, capsule_payload, Capsule, CapsuleError};

verus! {

/// Size of the buffer one TUN read goes into: the largest packet relayed.
pub const TUN_READ_BUFFER_SIZE: usize = 1500;

/// Size of the buffer one UDP receive goes into: longer datagrams are cut to it.
pub const UDP_RECV_BUFFER_SIZE: usize = 1500;

/// How long the outbound side waits before it looks again for a peer.
pub const PEER_WAIT_MILLIS: u64 = 10;

/// The bytes that a receive into a buffer of `UDP_RECV_BUFFER_SIZE` bytes
/// yields for a datagram of `sent` bytes.
pub open spec fn received_part(sent: Seq<u8>) -> Seq<u8> {
    if sent.len() <= UDP_RECV_BUFFER_SIZE {
        sent
    } else {
        sent.take(UDP_RECV_BUFFER_SIZE as int)
    }
}

/// A UDP datagram to send.
#[derive(Debug)]
pub struct Datagram {
    pub to: Endpoint,
    pub payload: Vec<u8>,
}

/// What the outbound side (TUN to UDP) does next.
#[derive(Clone, Copy, Debug, PartialEq, Eq, Structural)]
pub enum OutboundStep {
    /// No peer is known yet: sleep this many milliseconds and ask again.
    WaitMillis(u64),
    /// Read the next packet from the TUN device.
    ReadTun,
}

/// The state that both directions of one tunnel end share: where datagrams go.
#[derive(Clone, Copy, Debug, PartialEq, Eq, Structural)]
pub enum Relay {
    /// The listening end: it learns its peer from each datagram it receives.
    Server { peer: Option<Endpoint> },
    /// The connecting end: its peer is the server it was started with.
    Client { server: Endpoint },
}

impl Relay {
    /// Where datagrams go, if anywhere yet.
    pub open spec fn spec_peer(self) -> Option<Endpoint> {
        match self {
            Relay::Server { peer } => peer,
            Relay::Client { server } => Some(server),
        }
    }

    /// The state after a datagram from `from` came in.
    pub open spec fn spec_after_datagram(self, from: Endpoint) -> Relay {
        match self {
            Relay::Server { .. } => Relay::Server { peer: Some(from) },
            Relay::Client { .. } => self,
        }
    }

    /// The datagram sent for a TUN packet: its capsule, to the peer.
    pub open spec fn spec_outbound(self, packet: Seq<u8>) -> Option<(Endpoint, Seq<u8>)> {
        match self.spec_peer() {
            Some(p) => Some((p, capsule_bytes(packet))),
            None => None,
        }
    }

    /// The packet written to the TUN device for a received datagram.
    pub open spec fn spec_inbound(datagram: Seq<u8>) -> Option<Seq<u8>> {
        if capsule_decodable(datagram) {
            Some(capsule_payload(datagram))
        } else {
            None
        }
    }

    /// A listening end that has not heard from anyone yet.
    pub fn server() -> (res: Relay)
        ensures
            res == (Relay::Server { peer: None }),
    {
        Relay::Server { peer: None }
    }

    /// A connecting end that talks to `server`.
    pub fn client(server: Endpoint) -> (res: Relay)
        ensures
            res == (Relay::Client { server }),
    {
        Relay::Client { server }
    }

    /// Where datagrams go, if anywhere yet.
    pub fn peer(&self) -> (res: Option<Endpoint>)
        ensures
            res == self.spec_peer(),
    {
        match self {
            Relay::Server { peer } => *peer,
            Relay::Client { server } => Some(*server),
        }
    }

    /// The next step of the outbound side: it reads the TUN device only once
    /// it knows where to send.
    pub fn next_outbound(&self) -> (res: OutboundStep)
        ensures
            self.spec_peer() is None ==> res == OutboundStep::WaitMillis(PEER_WAIT_MILLIS),
            self.spec_peer() is Some ==> res == OutboundStep::ReadTun,
    {
        match self.peer() {
            None => OutboundStep::WaitMillis(PEER_WAIT_MILLIS),
            Some(_) => OutboundStep::ReadTun,
        }
    }

    /// The datagram to send for a packet read from the TUN device: the
    /// packet's capsule, addressed to the peer; none while there is no peer.
    pub fn on_tun_packet(&self, packet: &[u8]) -> (res: Option<Datagram>)
        ensures
            res is Some <==> self.spec_peer() is Some,
            res matches Some(d) ==> self.spec_outbound(packet@) == Some((d.to, d.payload@)),
            res matches Some(d) ==> d.to == self.spec_peer()->0 && d.payload@ == capsule_bytes(
                packet@,
            ),
            res matches Some(d) ==> d.payload@.len() == packet@.len() + 8 && d.payload@.skip(8)
                == packet@ && Relay::spec_inbound(d.payload@) == Some(packet@),
    {
        match self.peer() {
            None => None,
            Some(to) => {
                let capsule = Capsule::from_slice(packet);
                let payload = capsule.encode();
                proof {
                    assert(packet@.len() == packet.len());
                    assert(packet.len() <= usize::MAX);
                    lemma_outbound_is_capsule_of_packet(*self, packet@);
                }
                Some(Datagram { to, payload })
            },
        }
    }

    /// Takes a datagram received from `from`: a listening end now sends to
    /// `from`; the packet to write to the TUN device is the capsule's payload.
    pub fn on_datagram(&mut self, datagram: &[u8], from: Endpoint) -> (res: Result<
        Vec<u8>,
        CapsuleError,
    >)
        ensures
            *final(self) == old(self).spec_after_datagram(from),
            *old(self) is Server ==> *final(self) == (Relay::Server { peer: Some(from) }),
            *old(self) is Client ==> *final(self) == *old(self),
            res is Ok <==> capsule_decodable(datagram@),
            res matches Ok(p) ==> Relay::spec_inbound(datagram@) == Some(p@),
            res matches Err(e) ==> (e == CapsuleError::TooShort <==> datagram@.len() < 8),
    {
        if let Relay::Server { peer } = self {
            *peer = Some(from);
        }
        match Capsule::decode(datagram) {
            Ok(c) => Ok(c.data),
            Err(e) => Err(e),
        }
    }
}

/// A listening end answers whoever wrote last: after a datagram from `from`,
/// the next TUN packet goes to `from`.
pub proof fn lemma_server_answers_last_sender(peer: Option<Endpoint>, from: Endpoint, packet: Seq<
    u8,
>)
    ensures
        (Relay::Server { peer }).spec_after_datagram(from).spec_peer() == Some(from),
        (Relay::Server { peer }).spec_after_datagram(from).spec_outbound(packet) == Some(
            (from, capsule_bytes(packet)),
        ),
{
}

/// A listening end stays a listening end and takes every sender as its peer:
/// after one datagram its peer is the sender; after two, the later sender,
/// whatever peer it had before.
pub proof fn lemma_server_follows_latest_sender(peer: Option<Endpoint>, a: Endpoint, b: Endpoint)
    ensures
        (Relay::Server { peer }).spec_after_datagram(a) == (Relay::Server { peer: Some(a) }),
        (Relay::Server { peer }).spec_after_datagram(a).spec_after_datagram(b) == (Relay::Server {
            peer: Some(b),
        }),
{
}

/// For every end with a peer and every packet (of any length a machine can
/// hold), the outbound datagram goes to the peer and is exactly the packet's
/// capsule: eight length bytes, then the packet unchanged, so that it decodes
/// back to the packet.
pub proof fn lemma_outbound_is_capsule_of_packet(r: Relay, packet: Seq<u8>)
    requires
        r.spec_peer() is Some,
        packet.len() <= u64::MAX,
    ensures
        r.spec_outbound(packet) == Some((r.spec_peer()->0, capsule_bytes(packet))),
        capsule_bytes(packet).len() == packet.len() + 8,
        capsule_bytes(packet).skip(8) == packet,
        Relay::spec_inbound(capsule_bytes(packet)) == Some(packet),
{
    crate::capsule::lemma_capsule_roundtrip(packet, Seq::empty());
    assert(capsule_bytes(packet) + Seq::<u8>::empty() =~= capsule_bytes(packet));
    assert(capsule_bytes(packet).skip(8) =~= packet);
}

/// A connecting end never changes its peer, whoever writes to it.
pub proof fn lemma_client_peer_fixed(server: Endpoint, from: Endpoint)
    ensures
        (Relay::Client { server }).spec_after_datagram(from) == (Relay::Client { server }),
        (Relay::Client { server }).spec_after_datagram(from).spec_peer() == Some(server),
{
}

/// What one tunnel end reads from its TUN device, the other end writes to its
/// own, as long as the capsule fits the receive buffer (packets of at most
/// `UDP_RECV_BUFFER_SIZE - 8` bytes); and the datagram goes to the peer.
pub proof fn lemma_tunnel_delivers(sender: Relay, packet: Seq<u8>)
    requires
        sender.spec_peer() is Some,
        packet.len() + 8 <= UDP_RECV_BUFFER_SIZE,
    ensures
        sender.spec_outbound(packet) matches Some((to, d)) && to == sender.spec_peer()->0
            && received_part(d) == d && Relay::spec_inbound(received_part(d)) == Some(packet),
{
    crate::capsule::lemma_capsule_roundtrip(packet, Seq::empty());
    assert(capsule_bytes(packet) + Seq::<u8>::empty() =~= capsule_bytes(packet));
}

/// A full exchange: the client's packet `p` reaches the server's TUN device
/// and makes the server answer the client's endpoint; the server's packet `q`
/// then reaches the client's TUN device, and the client still talks to the
/// server. Both packets must fit the receive buffer with their capsule.
pub proof fn lemma_exchange_through_tunnel(
    server_peer: Option<Endpoint>,
    client_at: Endpoint,
    server_at: Endpoint,
    p: Seq<u8>,
    q: Seq<u8>,
)
    requires
        p.len() + 8 <= UDP_RECV_BUFFER_SIZE,
        q.len() + 8 <= UDP_RECV_BUFFER_SIZE,
    ensures
        ({
            let client = Relay::Client { server: server_at };
            let server = Relay::Server { peer: server_peer };
            let (to1, d1) = client.spec_outbound(p)->0;
            let server2 = server.spec_after_datagram(client_at);
            let (to2, d2) = server2.spec_outbound(q)->0;
            let client2 = client.spec_after_datagram(server_at);
            &&& to1 == server_at
            &&& Relay::spec_inbound(received_part(d1)) == Some(p)
            &&& to2 == client_at
            &&& Relay::spec_inbound(received_part(d2)) == Some(q)
            &&& client2 == client
        }),
{
    lemma_tunnel_delivers(Relay::Client { server: server_at }, p);
    lemma_server_answers_last_sender(server_peer, client_at, q);
    lemma_tunnel_delivers(Relay::Server { peer: Some(client_at) }, q);
}

} // verus!
