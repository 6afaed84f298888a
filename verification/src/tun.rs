use vstd::prelude::*;

use crate::address::{ipv4, spec_ipv4, IpAddress};

verus! {

/// The OSI layer a TUN device works at.
#[derive(Clone, Copy, Debug, PartialEq, Eq, Structural)]
pub enum Layer {
    /// Ethernet frames (a TAP device).
    L2,
    /// IP packets.
    L3,
}

/// How a TUN device is set up. `None` leaves the device's default.
#[derive(Clone, Copy, Debug, PartialEq, Eq, Structural)]
pub struct TunSettings {
    pub address: IpAddress,
    pub netmask: IpAddress,
    pub destination: IpAddress,
    pub mtu: Option<u16>,
    pub layer: Option<Layer>,
    pub up: bool,
    pub ensure_root_privileges: bool,
}

/// Maximum transmission unit of the interface devices.
pub const INTERFACE_MTU: u16 = 1200;

impl TunSettings {
    /// The settings of the tunnel device of the command-line tool: the given
    /// address in a /24 (netmask 255.255.255.0), peer 10.0.0.1, brought up,
    /// created only with root privileges.
    pub open spec fn spec_for_tunnel(address: IpAddress) -> TunSettings {
        TunSettings {
            address,
            netmask: IpAddress::V4(spec_ipv4(255, 255, 255, 0)),
            destination: IpAddress::V4(spec_ipv4(10, 0, 0, 1)),
            mtu: None,
            layer: None,
            up: true,
            ensure_root_privileges: true,
        }
    }

    /// The settings of the tunnel device of the command-line tool.
    pub fn for_tunnel(address: IpAddress) -> (res: TunSettings)
        ensures
            res == Self::spec_for_tunnel(address),
            res.address == address,
            res.netmask == IpAddress::V4(0xffff_ff00),
            res.destination == IpAddress::V4(0x0a00_0001),
            res.mtu is None,
            res.layer is None,
            res.up,
            res.ensure_root_privileges,
    {
        TunSettings {
            address,
            netmask: ipv4(255, 255, 255, 0),
            destination: ipv4(10, 0, 0, 1),
            mtu: None,
            layer: None,
            up: true,
            ensure_root_privileges: true,
        }
    }

    /// The settings of an interface device: those of the tunnel device, with
    /// an MTU of 1200 and Ethernet framing (layer 2).
    pub fn for_interface(address: IpAddress) -> (res: TunSettings)
        ensures
            res == (TunSettings {
                mtu: Some(INTERFACE_MTU),
                layer: Some(Layer::L2),
                ..Self::spec_for_tunnel(address)
            }),
            res.address == address,
            res.netmask == IpAddress::V4(0xffff_ff00),
            res.destination == IpAddress::V4(0x0a00_0001),
            res.mtu == Some(1200u16),
            res.layer == Some(Layer::L2),
            res.up,
            res.ensure_root_privileges,
    {
        let base = Self::for_tunnel(address);
        TunSettings { mtu: Some(INTERFACE_MTU), layer: Some(Layer::L2), ..base }
    }
}

/// The tunnel device gets exactly the address it is given, for every address,
/// in the /24 netmask 255.255.255.0 with peer 10.0.0.1, up and root-only; the
/// interface variant differs only by MTU 1200 and layer 2.
pub proof fn lemma_tunnel_settings_keep_address(a: IpAddress)
    ensures
        TunSettings::spec_for_tunnel(a).address == a,
        TunSettings::spec_for_tunnel(a).netmask == IpAddress::V4(0xffff_ff00),
        TunSettings::spec_for_tunnel(a).destination == IpAddress::V4(0x0a00_0001),
        TunSettings::spec_for_tunnel(a).mtu is None,
        TunSettings::spec_for_tunnel(a).layer is None,
        TunSettings::spec_for_tunnel(a).up,
        TunSettings::spec_for_tunnel(a).ensure_root_privileges,
        forall|b: IpAddress| #![auto]
            TunSettings::spec_for_tunnel(a) == TunSettings::spec_for_tunnel(b) ==> a == b,
{
}

} // verus!
