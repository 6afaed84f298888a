//! Verified core of a small layer-3 tunnel: addresses, the capsule that carries
//! one TUN packet in one UDP datagram, the relay decisions of both tunnel ends,
//! the echo servers and the configuration values of the tunnel devices.

pub mod address;
pub mod capsule;
pub mod protocol;
pub mod relay;
pub mod server;
pub mod argument_parser;
pub mod tun;
