use vstd::prelude::*;

pub mod arp;
pub mod icmp;
pub mod ipv4;
pub mod ipv6;

verus! {

/// A 16-bit ether-type discriminant carried in a link frame.
pub type EthernetType = u16;

pub const IPV4: EthernetType = 0x0800;
pub const WOL: EthernetType = 0x0842;
pub const RARP: EthernetType = 0x8035;
pub const ARP: EthernetType = 0x0806;
pub const IPV6: EthernetType = 0x86DD;
pub const GOOSE: EthernetType = 0x88B8;

/// Which network-layer decoder an ether-type selects. An unmapped value is
/// a valid, representable outcome, not a failure.
#[derive(Clone, Copy, Debug, PartialEq, Eq, Structural)]
pub enum EtherKind {
    Ipv4,
    Arp,
    Ipv6,
    Unknown(u16),
}

/// The dispatch table of the link layer: 0x0800 selects IPv4, 0x0806 ARP,
/// 0x86DD IPv6; any other value is tagged `Unknown`.
pub open spec fn spec_ether_kind(frame_type: u16) -> EtherKind {
    if frame_type == IPV4 {
        EtherKind::Ipv4
    } else if frame_type == ARP {
        EtherKind::Arp
    } else if frame_type == IPV6 {
        EtherKind::Ipv6
    } else {
        EtherKind::Unknown(frame_type)
    }
}

/// Maps an ether-type to the decoder it selects.
pub fn ether_kind(frame_type: u16) -> (r: EtherKind)
    ensures
        r == spec_ether_kind(frame_type),
{
    if frame_type == IPV4 {
        EtherKind::Ipv4
    } else if frame_type == ARP {
        EtherKind::Arp
    } else if frame_type == IPV6 {
        EtherKind::Ipv6
    } else {
        EtherKind::Unknown(frame_type)
    }
}

} // verus!
