use vstd::prelude::*;

pub mod tcp;
pub mod udp;

verus! {

/// An 8-bit IP protocol discriminant carried in a network-layer header.
pub type Protocol = u8;

pub const ICMP: Protocol = 1;
pub const IGMP: Protocol = 2;
pub const TCP: Protocol = 6;
pub const CHAOS: Protocol = 16;
pub const UDP: Protocol = 17;
pub const RDP: Protocol = 27;
pub const IPV6_ICMP: Protocol = 58;

/// Which transport-layer decoder an IP protocol value selects. An unmapped
/// value is a valid, representable outcome, not a failure.
#[derive(Clone, Copy, Debug, PartialEq, Eq, Structural)]
pub enum ProtocolKind {
    Icmp,
    Tcp,
    Udp,
    Unknown(u8),
}

/// The dispatch table of the network layer: protocol 1 selects ICMP, 6 TCP,
/// 17 UDP; any other value is tagged `Unknown`.
pub open spec fn spec_protocol_kind(protocol: u8) -> ProtocolKind {
    if protocol == ICMP {
        ProtocolKind::Icmp
    } else if protocol == TCP {
        ProtocolKind::Tcp
    } else if protocol == UDP {
        ProtocolKind::Udp
    } else {
        ProtocolKind::Unknown(protocol)
    }
}

/// Maps an IP protocol value to the decoder it selects.
pub fn protocol_kind(protocol: u8) -> (r: ProtocolKind)
    ensures
        r == spec_protocol_kind(protocol),
{
    if protocol == ICMP {
        ProtocolKind::Icmp
    } else if protocol == TCP {
        ProtocolKind::Tcp
    } else if protocol == UDP {
        ProtocolKind::Udp
    } else {
        ProtocolKind::Unknown(protocol)
    }
}

} // verus!
