use tun_playground::address::{ipv4, Endpoint, IpAddress};
use tun_playground::argument_parser::{Argument, Commands};
use tun_playground::tun::{Layer, TunSettings, INTERFACE_MTU};

#[test]
fn ipv4_value() {
    assert_eq!(ipv4(10, 0, 0, 1), IpAddress::V4(0x0a00_0001));
    assert_eq!(ipv4(255, 255, 255, 0), IpAddress::V4(0xffff_ff00));
}

#[test]
fn client_binds_wildcard_of_same_family() {
    let v4 = Endpoint::V4 { ip: 0x7f00_0001, port: 12345 };
    assert_eq!(v4.client_bind_endpoint(), Endpoint::V4 { ip: 0, port: 0 });
    let v6 = Endpoint::V6 { ip: 1, port: 443, flowinfo: 3, scope_id: 2 };
    assert_eq!(v6.client_bind_endpoint(), Endpoint::V6 { ip: 0, port: 0, flowinfo: 0, scope_id: 0 });
    assert_eq!(v4.ip(), IpAddress::V4(0x7f00_0001));
    assert_eq!(v6.port(), 443);
}

#[test]
fn tunnel_device_settings() {
    let s = TunSettings::for_tunnel(ipv4(10, 0, 0, 2));
    assert_eq!(s.address, IpAddress::V4(0x0a00_0002));
    assert_eq!(s.netmask, IpAddress::V4(0xffff_ff00));
    assert_eq!(s.destination, IpAddress::V4(0x0a00_0001));
    assert_eq!(s.mtu, None);
    assert_eq!(s.layer, None);
    assert!(s.up);
    assert!(s.ensure_root_privileges);
}

#[test]
fn interface_device_settings() {
    let s = TunSettings::for_interface(ipv4(10, 1, 0, 2));
    assert_eq!(s.address, IpAddress::V4(0x0a01_0002));
    assert_eq!(s.mtu, Some(1200));
    assert_eq!(INTERFACE_MTU, 1200);
    assert_eq!(s.layer, Some(Layer::L2));
    assert_eq!(s.netmask, IpAddress::V4(0xffff_ff00));
    assert_eq!(s.destination, IpAddress::V4(0x0a00_0001));
    assert!(s.up);
}

#[test]
fn argument_keeps_its_parts() {
    let a = Argument::new(Commands::Server { listen: "0.0.0.0:12345".to_string() }, "10.0.0.2".to_string(), true, false);
    assert_eq!(a.tun_addr(), "10.0.0.2");
    assert!(a.verbose());
    assert!(!a.debug());
    match a.command() {
        Commands::Server { listen } => assert_eq!(listen, "0.0.0.0:12345"),
        Commands::Client { .. } => panic!("expected the server command"),
    }
}
