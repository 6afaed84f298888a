use tun_playground::address::Endpoint;
use tun_playground::capsule::{Capsule, CapsuleError};
use tun_playground::relay::{OutboundStep, Relay, PEER_WAIT_MILLIS, UDP_RECV_BUFFER_SIZE};

fn client_ep() -> Endpoint {
    Endpoint::V4 { ip: 0xc0a8_0002, port: 40000 }
}

fn server_ep() -> Endpoint {
    Endpoint::V4 { ip: 0x7f00_0001, port: 12345 }
}

#[test]
fn server_waits_until_it_hears_from_a_peer() {
    let r = Relay::server();
    assert_eq!(r.peer(), None);
    assert_eq!(r.next_outbound(), OutboundStep::WaitMillis(PEER_WAIT_MILLIS));
    assert_eq!(PEER_WAIT_MILLIS, 10);
    assert!(r.on_tun_packet(&[1, 2, 3]).is_none());
}

#[test]
fn client_reads_tun_at_once() {
    let r = Relay::client(server_ep());
    assert_eq!(r.peer(), Some(server_ep()));
    assert_eq!(r.next_outbound(), OutboundStep::ReadTun);
}

#[test]
fn tun_packet_becomes_capsule_to_peer() {
    let r = Relay::client(server_ep());
    let d = r.on_tun_packet(&[9, 8, 7]).unwrap();
    assert_eq!(d.to, server_ep());
    assert_eq!(d.payload, vec![3, 0, 0, 0, 0, 0, 0, 0, 9, 8, 7]);
}

#[test]
fn server_learns_peer_from_datagram() {
    let mut r = Relay::server();
    let datagram = Capsule::new(vec![4, 5]).encode();
    let packet = r.on_datagram(&datagram, client_ep()).unwrap();
    assert_eq!(packet, vec![4, 5]);
    assert_eq!(r.peer(), Some(client_ep()));
    assert_eq!(r.next_outbound(), OutboundStep::ReadTun);
    let reply = r.on_tun_packet(&[6]).unwrap();
    assert_eq!(reply.to, client_ep());
}

#[test]
fn server_follows_latest_sender() {
    let mut r = Relay::server();
    let other = Endpoint::V6 { ip: 1, port: 5000, flowinfo: 0, scope_id: 0 };
    let datagram = Capsule::new(vec![1]).encode();
    r.on_datagram(&datagram, client_ep()).unwrap();
    r.on_datagram(&datagram, other).unwrap();
    assert_eq!(r.peer(), Some(other));
}

#[test]
fn client_keeps_its_server() {
    let mut r = Relay::client(server_ep());
    let datagram = Capsule::new(vec![1, 2]).encode();
    r.on_datagram(&datagram, client_ep()).unwrap();
    assert_eq!(r.peer(), Some(server_ep()));
}

#[test]
fn bad_datagram_is_reported() {
    let mut r = Relay::server();
    assert_eq!(r.on_datagram(&[1, 2], client_ep()).unwrap_err(), CapsuleError::TooShort);
    assert_eq!(r.peer(), Some(client_ep()));
    let mut c = Relay::client(server_ep());
    assert_eq!(
        c.on_datagram(&[9, 0, 0, 0, 0, 0, 0, 0, 1], server_ep()).unwrap_err(),
        CapsuleError::Truncated
    );
}

#[test]
fn tunnel_carries_packet_end_to_end() {
    let client = Relay::client(server_ep());
    let mut server = Relay::server();
    let packet: Vec<u8> = (0..1492u32).map(|i| (i % 256) as u8).collect();
    let d = client.on_tun_packet(&packet).unwrap();
    assert_eq!(d.to, server_ep());
    assert!(d.payload.len() <= UDP_RECV_BUFFER_SIZE);
    let out = server.on_datagram(&d.payload, client_ep()).unwrap();
    assert_eq!(out, packet);
    let back = server.on_tun_packet(&[42]).unwrap();
    assert_eq!(back.to, client_ep());
}

#[test]
fn full_size_packet_does_not_fit_receive_buffer() {
    let client = Relay::client(server_ep());
    let mut server = Relay::server();
    let packet = vec![0u8; 1500];
    let d = client.on_tun_packet(&packet).unwrap();
    assert_eq!(d.payload.len(), 1508);
    let received = &d.payload[..UDP_RECV_BUFFER_SIZE];
    assert_eq!(server.on_datagram(received, client_ep()).unwrap_err(), CapsuleError::Truncated);
}
