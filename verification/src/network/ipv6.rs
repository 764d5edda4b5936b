use vstd::prelude::*;
use vstd::slice::{slice_subrange, slice_to_vec};
use crate::error::DecodeError;
use crate::util::{be128_of, be16_of, be32_of, read_u128, read_u16, read_u32};

verus! {

/// A sixteen-byte IPv6 address, as the big-endian 128-bit integer its
/// bytes form.
#[derive(Clone, Copy, Debug, PartialEq, Eq, Structural)]
pub struct Ipv6Address(pub u128);

/// A fixed 40-byte IPv6 header. The traffic class and flow label are
/// packed across byte boundaries: the class is the bottom nibble of byte 0
/// concatenated with the top nibble of byte 1, and the label the bottom
/// 20 bits of bytes 0..4.
#[derive(Clone, Copy, Debug, PartialEq, Eq, Structural)]
pub struct Ipv6Packet {
    pub version: u8,
    pub traffic_class: u8,
    pub flow_label: u32,
    pub payload_length: u16,
    pub next_header: u8,
    pub hop_limit: u8,
    pub source_address: Ipv6Address,
    pub destination_address: Ipv6Address,
}

/// What decoding `data` as an IPv6 packet yields: the header fields from
/// bytes 0..40 and the payload from byte 40 on, or `TruncatedInput` on a
/// buffer shorter than the fixed 40-byte header. The next-header byte is
/// carried through unchanged; extension headers are not descended into.
pub open spec fn spec_decode_ipv6(data: Seq<u8>) -> Result<(Ipv6Packet, Seq<u8>), DecodeError> {
    if data.len() < 40 {
        Err(DecodeError::TruncatedInput)
    } else {
        Ok((
            Ipv6Packet {
                version: data[0] >> 4,
                traffic_class: ((be16_of(data, 0) & 0x0FF0) >> 4) as u8,
                flow_label: be32_of(data, 0) & 0x000FFFFF,
                payload_length: be16_of(data, 4),
                next_header: data[6],
                hop_limit: data[7],
                source_address: Ipv6Address(be128_of(data, 8)),
                destination_address: Ipv6Address(be128_of(data, 24)),
            },
            data.skip(40),
        ))
    }
}

impl Ipv6Packet {
    /// Decodes a slice beginning at an IPv6 packet, returning the header
    /// and the payload that follows it.
    pub fn decode(data: &[u8]) -> (r: Result<(Ipv6Packet, Vec<u8>), DecodeError>)
        ensures
            match r {
                Ok((p, payload)) => spec_decode_ipv6(data@) == Ok::<
                    (Ipv6Packet, Seq<u8>),
                    DecodeError,
                >((p, payload@)),
                Err(e) => spec_decode_ipv6(data@) == Err::<(Ipv6Packet, Seq<u8>), DecodeError>(e),
            },
    {
        if data.len() < 40 {
            return Err(DecodeError::TruncatedInput);
        }
        let head16 = match read_u16(data, 0) {
            Ok(v) => v,
            Err(e) => {
                return Err(e);
            },
        };
        let head32 = match read_u32(data, 0) {
            Ok(v) => v,
            Err(e) => {
                return Err(e);
            },
        };
        let payload_length = match read_u16(data, 4) {
            Ok(v) => v,
            Err(e) => {
                return Err(e);
            },
        };
        let source = match read_u128(data, 8) {
            Ok(v) => v,
            Err(e) => {
                return Err(e);
            },
        };
        let destination = match read_u128(data, 24) {
            Ok(v) => v,
            Err(e) => {
                return Err(e);
            },
        };
        let p = Ipv6Packet {
            version: data[0] >> 4,
            traffic_class: ((head16 & 0x0FF0) >> 4) as u8,
            flow_label: head32 & 0x000FFFFF,
            payload_length,
            next_header: data[6],
            hop_limit: data[7],
            source_address: Ipv6Address(source),
            destination_address: Ipv6Address(destination),
        };
        let payload = slice_to_vec(slice_subrange(data, 40, data.len()));
        Ok((p, payload))
    }
}

} // verus!
