use vstd::prelude::*;
use crate::application::dns::{spec_decode_dns, DNSQuery, DNSQueryView};
use crate::datalink::ethernet::{spec_decode_frame, Frame, FrameView};
use crate::error::DecodeError;
use crate::network::arp::{spec_decode_arp, ARPPacket, ARPPacketView};
use crate::network::icmp::{spec_decode_icmp, ICMPSegment};
use crate::network::ipv4::{spec_decode_ipv4, Ipv4Packet, Ipv4PacketView};
use crate::network::ipv6::{spec_decode_ipv6, Ipv6Packet};
use crate::network::{ether_kind, spec_ether_kind, EtherKind};
use crate::transport::tcp::{spec_decode_tcp, TcpSegment, TcpSegmentView};
use crate::transport::udp::{spec_decode_udp, UDPSegment, UDPSegmentView};
use crate::transport::{protocol_kind, spec_protocol_kind, ProtocolKind};
use crate::util::DataContainer;

verus! {

/// The port on which the pipeline looks for DNS inside UDP.
pub const DNS_PORT: u16 = 53;

/// What the application layer held, when the transport layer was UDP on
/// the DNS port.
pub enum DnsOutcome {
    /// The payload decoded as a DNS message.
    Dns(DNSQuery),
    /// Neither port was the DNS port, so the payload was not inspected.
    NotDns,
    /// The payload should have been DNS but did not decode.
    Failed(DecodeError),
}

/// The mathematical content of a [`DnsOutcome`].
pub enum DnsOutcomeView {
    Dns(DNSQueryView),
    NotDns,
    Failed(DecodeError),
}

impl View for DnsOutcome {
    type V = DnsOutcomeView;

    open spec fn view(&self) -> DnsOutcomeView {
        match self {
            DnsOutcome::Dns(q) => DnsOutcomeView::Dns(q@),
            DnsOutcome::NotDns => DnsOutcomeView::NotDns,
            DnsOutcome::Failed(e) => DnsOutcomeView::Failed(*e),
        }
    }
}

/// What the transport layer of a decoded IPv4 packet held. A protocol
/// value with no decoder is `Unknown`, a valid terminal outcome; a decoder
/// that failed leaves `Failed`, and the layers above it stand.
pub enum TransportOutcome {
    Tcp(TcpSegment, Vec<u8>),
    Udp(UDPSegment, DnsOutcome),
    Icmp(ICMPSegment, Vec<u8>),
    Unknown(u8),
    Failed(DecodeError),
}

/// The mathematical content of a [`TransportOutcome`].
pub enum TransportOutcomeView {
    Tcp(TcpSegmentView, Seq<u8>),
    Udp(UDPSegmentView, DnsOutcomeView),
    Icmp(ICMPSegment, Seq<u8>),
    Unknown(u8),
    Failed(DecodeError),
}

impl View for TransportOutcome {
    type V = TransportOutcomeView;

    open spec fn view(&self) -> TransportOutcomeView {
        match self {
            TransportOutcome::Tcp(s, payload) => TransportOutcomeView::Tcp(s@, payload@),
            TransportOutcome::Udp(s, d) => TransportOutcomeView::Udp(s@, d@),
            TransportOutcome::Icmp(s, payload) => TransportOutcomeView::Icmp(*s, payload@),
            TransportOutcome::Unknown(p) => TransportOutcomeView::Unknown(*p),
            TransportOutcome::Failed(e) => TransportOutcomeView::Failed(*e),
        }
    }
}

/// What the network layer of a decoded frame held.
pub enum NetworkOutcome {
    Arp(ARPPacket),
    Ipv4(Ipv4Packet, TransportOutcome),
    Ipv6(Ipv6Packet, Vec<u8>),
    Unknown(u16),
    Failed(DecodeError),
}

/// The mathematical content of a [`NetworkOutcome`].
pub enum NetworkOutcomeView {
    Arp(ARPPacketView),
    Ipv4(Ipv4PacketView, TransportOutcomeView),
    Ipv6(Ipv6Packet, Seq<u8>),
    Unknown(u16),
    Failed(DecodeError),
}

impl View for NetworkOutcome {
    type V = NetworkOutcomeView;

    open spec fn view(&self) -> NetworkOutcomeView {
        match self {
            NetworkOutcome::Arp(p) => NetworkOutcomeView::Arp(p@),
            NetworkOutcome::Ipv4(p, t) => NetworkOutcomeView::Ipv4(p@, t@),
            NetworkOutcome::Ipv6(p, payload) => NetworkOutcomeView::Ipv6(*p, payload@),
            NetworkOutcome::Unknown(t) => NetworkOutcomeView::Unknown(*t),
            NetworkOutcome::Failed(e) => NetworkOutcomeView::Failed(*e),
        }
    }
}

/// A fully decoded capture: the link frame and whatever the layers nested
/// in its payload held.
pub struct DecodedFrame {
    pub frame: Frame,
    pub network: NetworkOutcome,
}

/// The mathematical content of a [`DecodedFrame`].
pub struct DecodedFrameView {
    pub frame: FrameView,
    pub network: NetworkOutcomeView,
}

impl View for DecodedFrame {
    type V = DecodedFrameView;

    open spec fn view(&self) -> DecodedFrameView {
        DecodedFrameView { frame: self.frame@, network: self.network@ }
    }
}

/// What the application layer yields for a decoded UDP segment: a DNS
/// decode of the payload when either port is the DNS port, and `NotDns`
/// otherwise.
pub open spec fn spec_dns_outcome(udp: UDPSegmentView) -> DnsOutcomeView {
    if udp.source_port == DNS_PORT || udp.destination_port == DNS_PORT {
        match spec_decode_dns(udp.data) {
            Ok(q) => DnsOutcomeView::Dns(q),
            Err(e) => DnsOutcomeView::Failed(e),
        }
    } else {
        DnsOutcomeView::NotDns
    }
}

/// What the transport layer yields for an IPv4 protocol value and the
/// packet payload it selects a decoder for.
pub open spec fn spec_transport_outcome(protocol: u8, payload: Seq<u8>) -> TransportOutcomeView {
    match spec_protocol_kind(protocol) {
        ProtocolKind::Tcp => match spec_decode_tcp(payload) {
            Ok((s, rest)) => TransportOutcomeView::Tcp(s, rest),
            Err(e) => TransportOutcomeView::Failed(e),
        },
        ProtocolKind::Udp => match spec_decode_udp(payload) {
            Ok(s) => TransportOutcomeView::Udp(s, spec_dns_outcome(s)),
            Err(e) => TransportOutcomeView::Failed(e),
        },
        ProtocolKind::Icmp => match spec_decode_icmp(payload) {
            Ok((s, rest)) => TransportOutcomeView::Icmp(s, rest),
            Err(e) => TransportOutcomeView::Failed(e),
        },
        ProtocolKind::Unknown(p) => TransportOutcomeView::Unknown(p),
    }
}

/// What the network layer yields for an ether-type and the frame payload
/// it selects a decoder for.
pub open spec fn spec_network_outcome(frame_type: u16, payload: Seq<u8>) -> NetworkOutcomeView {
    match spec_ether_kind(frame_type) {
        EtherKind::Arp => match spec_decode_arp(payload) {
            Ok(p) => NetworkOutcomeView::Arp(p),
            Err(e) => NetworkOutcomeView::Failed(e),
        },
        EtherKind::Ipv4 => match spec_decode_ipv4(payload) {
            Ok(p) => NetworkOutcomeView::Ipv4(
                p,
                spec_transport_outcome(p.protocol, p.packet_data),
            ),
            Err(e) => NetworkOutcomeView::Failed(e),
        },
        EtherKind::Ipv6 => match spec_decode_ipv6(payload) {
            Ok((p, rest)) => NetworkOutcomeView::Ipv6(p, rest),
            Err(e) => NetworkOutcomeView::Failed(e),
        },
        EtherKind::Unknown(t) => NetworkOutcomeView::Unknown(t),
    }
}

/// What decoding a raw captured frame through every layer yields. The
/// frame itself must decode; below it, each layer's failure is recorded in
/// place while the layers already decoded stand.
pub open spec fn spec_decode_packet(data: Seq<u8>) -> Result<DecodedFrameView, DecodeError> {
    match spec_decode_frame(data) {
        Ok(f) => Ok(
            DecodedFrameView { frame: f, network: spec_network_outcome(f.frame_type, f.frame_data) },
        ),
        Err(e) => Err(e),
    }
}

/// Decodes the application layer under a UDP segment.
fn decode_dns_outcome(udp: &UDPSegment) -> (r: DnsOutcome)
    ensures
        r@ == spec_dns_outcome(udp@),
{
    if udp.source() == DNS_PORT || udp.destination() == DNS_PORT {
        match DNSQuery::decode(udp.data()) {
            Ok(q) => DnsOutcome::Dns(q),
            Err(e) => DnsOutcome::Failed(e),
        }
    } else {
        DnsOutcome::NotDns
    }
}

/// Decodes the transport layer selected by an IPv4 protocol value.
fn decode_transport(protocol: u8, payload: &[u8]) -> (r: TransportOutcome)
    ensures
        r@ == spec_transport_outcome(protocol, payload@),
{
    match protocol_kind(protocol) {
        ProtocolKind::Tcp => match TcpSegment::decode(payload) {
            Ok((s, rest)) => TransportOutcome::Tcp(s, rest),
            Err(e) => TransportOutcome::Failed(e),
        },
        ProtocolKind::Udp => match UDPSegment::decode(payload) {
            Ok(s) => {
                let dns = decode_dns_outcome(&s);
                TransportOutcome::Udp(s, dns)
            },
            Err(e) => TransportOutcome::Failed(e),
        },
        ProtocolKind::Icmp => match ICMPSegment::decode(payload) {
            Ok((s, rest)) => TransportOutcome::Icmp(s, rest),
            Err(e) => TransportOutcome::Failed(e),
        },
        ProtocolKind::Unknown(p) => TransportOutcome::Unknown(p),
    }
}

/// Decodes the network layer selected by an ether-type.
fn decode_network(frame_type: u16, payload: &[u8]) -> (r: NetworkOutcome)
    ensures
        r@ == spec_network_outcome(frame_type, payload@),
{
    match ether_kind(frame_type) {
        EtherKind::Arp => match ARPPacket::decode(payload) {
            Ok(p) => NetworkOutcome::Arp(p),
            Err(e) => NetworkOutcome::Failed(e),
        },
        EtherKind::Ipv4 => match Ipv4Packet::decode(payload) {
            Ok(p) => {
                let transport = decode_transport(p.protocol(), p.data());
                NetworkOutcome::Ipv4(p, transport)
            },
            Err(e) => NetworkOutcome::Failed(e),
        },
        EtherKind::Ipv6 => match Ipv6Packet::decode(payload) {
            Ok((p, rest)) => NetworkOutcome::Ipv6(p, rest),
            Err(e) => NetworkOutcome::Failed(e),
        },
        EtherKind::Unknown(t) => NetworkOutcome::Unknown(t),
    }
}

/// Decodes a raw captured frame through every layer, dispatching at each
/// layer on the discriminant the previous layer carried and stopping the
/// descent, but not the decode, at the first failing layer.
pub fn decode_packet(data: &[u8]) -> (r: Result<DecodedFrame, DecodeError>)
    ensures
        match r {
            Ok(d) => spec_decode_packet(data@) == Ok::<DecodedFrameView, DecodeError>(d@),
            Err(e) => spec_decode_packet(data@) == Err::<DecodedFrameView, DecodeError>(e),
        },
{
    let frame = match Frame::decode(data) {
        Ok(f) => f,
        Err(e) => {
            return Err(e);
        },
    };
    let network = decode_network(frame.frame_type(), frame.data());
    Ok(DecodedFrame { frame, network })
}

/// Decoding is a function of the frame bytes alone: two decodes of the
/// same bytes yield identical structured output.
pub proof fn lemma_decode_deterministic(
    data: Seq<u8>,
    r1: Result<DecodedFrameView, DecodeError>,
    r2: Result<DecodedFrameView, DecodeError>,
)
    requires
        r1 == spec_decode_packet(data),
        r2 == spec_decode_packet(data),
    ensures
        r1 == r2,
{
}

/// A buffer of fewer than 14 bytes never decodes as a link frame: the
/// whole pipeline yields `TruncatedInput`, and no layer reads past the
/// buffer.
pub proof fn lemma_short_frame_truncated(data: Seq<u8>)
    requires
        data.len() < 14,
    ensures
        spec_decode_packet(data) == Err::<DecodedFrameView, DecodeError>(
            DecodeError::TruncatedInput,
        ),
{
}

} // verus!
