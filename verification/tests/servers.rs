use tun_playground::address::Endpoint;
use tun_playground::protocol::{Protocol, USING_PROTOCOL};
use tun_playground::server::quic::QuicServer;
use tun_playground::server::tcp::TcpServer;
use tun_playground::server::udp::UdpServer;
use tun_playground::server::{create_server, EchoStep, ServerInstance, ECHO_BUFFER_SIZE};

#[test]
fn servers_keep_their_address() {
    assert_eq!(TcpServer::new("0.0.0.0:8080").address(), "0.0.0.0:8080");
    assert_eq!(UdpServer::new("127.0.0.1:9").address(), "127.0.0.1:9");
    assert_eq!(QuicServer::new("[::1]:4433").address(), "[::1]:4433");
}

#[test]
fn create_server_picks_transport() {
    match create_server(Protocol::Tcp, "0.0.0.0:8080") {
        ServerInstance::Tcp(s) => assert_eq!(s.address(), "0.0.0.0:8080"),
        _ => panic!("expected a TCP server"),
    }
    match create_server(Protocol::Quic, "0.0.0.0:8080") {
        ServerInstance::Quic(s) => assert_eq!(s.address(), "0.0.0.0:8080"),
        _ => panic!("expected a QUIC server"),
    }
    let udp = create_server(Protocol::Udp, "0.0.0.0:7");
    assert_eq!(udp.protocol(), Protocol::Udp);
}

#[test]
fn programs_use_quic() {
    assert_eq!(USING_PROTOCOL, Protocol::Quic);
    assert_eq!(ECHO_BUFFER_SIZE, 1024);
}

#[test]
fn tcp_echo_step() {
    assert!(matches!(TcpServer::echo_step(&[]), EchoStep::Close));
    match TcpServer::echo_step(b"hello") {
        EchoStep::Reply(r) => assert_eq!(r, b"hello".to_vec()),
        EchoStep::Close => panic!("expected a reply"),
    }
}

#[test]
fn quic_echo_step() {
    assert!(matches!(QuicServer::echo_step(None), EchoStep::Close));
    assert!(matches!(QuicServer::echo_step(Some(&[])), EchoStep::Close));
    match QuicServer::echo_step(Some(&[1, 2, 3])) {
        EchoStep::Reply(r) => assert_eq!(r, vec![1, 2, 3]),
        EchoStep::Close => panic!("expected a reply"),
    }
}

#[test]
fn udp_echo_reply_goes_back_to_sender() {
    let from = Endpoint::V4 { ip: 0x0a00_0001, port: 5555 };
    let d = UdpServer::echo_reply(b"ping", from);
    assert_eq!(d.to, from);
    assert_eq!(d.payload, b"ping".to_vec());
    let e = UdpServer::echo_reply(&[], from);
    assert!(e.payload.is_empty());
}
