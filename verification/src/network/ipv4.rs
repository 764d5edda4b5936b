use vstd::prelude::*;
use vstd::slice::{slice_subrange, slice_to_vec};
use crate::error::DecodeError;
use crate::transport::Protocol;
use crate::util::{be16_of, read_u16, DataContainer};

verus! {

/// A four-byte IPv4 address.
#[derive(Clone, Copy, Debug, PartialEq, Eq, Structural)]
pub struct Ipv4Address(pub u8, pub u8, pub u8, pub u8);

/// The address formed by four bytes of `s` starting at `i`.
pub open spec fn ipv4_address_at(s: Seq<u8>, i: int) -> Ipv4Address
    recommends
        0 <= i,
        i + 4 <= s.len(),
{
    Ipv4Address(s[i], s[i + 1], s[i + 2], s[i + 3])
}

/// An IPv4 header together with the payload that follows it. The header
/// byte length is IHL·4, so the payload starts at that offset.
pub struct Ipv4Packet {
    version: u8,
    ihl: u8,
    tos: u8,
    total_length: u16,
    id: u16,
    flags: u8,
    offset: u16,
    ttl: u8,
    protocol: Protocol,
    checksum: u16,
    source_address: Ipv4Address,
    destination_address: Ipv4Address,
    packet_data: Vec<u8>,
}

/// The mathematical content of an [`Ipv4Packet`].
pub struct Ipv4PacketView {
    pub version: u8,
    pub ihl: u8,
    pub tos: u8,
    pub total_length: u16,
    pub id: u16,
    pub flags: u8,
    pub offset: u16,
    pub ttl: u8,
    pub protocol: Protocol,
    pub checksum: u16,
    pub source_address: Ipv4Address,
    pub destination_address: Ipv4Address,
    pub packet_data: Seq<u8>,
}

impl View for Ipv4Packet {
    type V = Ipv4PacketView;

    closed spec fn view(&self) -> Ipv4PacketView {
        Ipv4PacketView {
            version: self.version,
            ihl: self.ihl,
            tos: self.tos,
            total_length: self.total_length,
            id: self.id,
            flags: self.flags,
            offset: self.offset,
            ttl: self.ttl,
            protocol: self.protocol,
            checksum: self.checksum,
            source_address: self.source_address,
            destination_address: self.destination_address,
            packet_data: self.packet_data@,
        }
    }
}

/// What decoding `data` as an IPv4 packet yields. The version is the top
/// nibble of byte 0 and the IHL the bottom nibble; a non-4 version is
/// recorded, not rejected. The flags are the top 3 bits of byte 6 and the
/// fragment offset the remaining 13 bits of bytes 6..8. An IHL below 5
/// yields `InvalidHeaderLength`; a buffer shorter than the IHL·4-byte
/// header yields `TruncatedInput`; otherwise the payload starts at
/// offset IHL·4.
pub open spec fn spec_decode_ipv4(data: Seq<u8>) -> Result<Ipv4PacketView, DecodeError> {
    if data.len() < 1 {
        Err(DecodeError::TruncatedInput)
    } else {
        let ihl = data[0] & 0x0F;
        if ihl < 5 {
            Err(DecodeError::InvalidHeaderLength)
        } else if data.len() < 4 * ihl as int {
            Err(DecodeError::TruncatedInput)
        } else {
            Ok(Ipv4PacketView {
                version: data[0] >> 4,
                ihl,
                tos: data[1],
                total_length: be16_of(data, 2),
                id: be16_of(data, 4),
                flags: data[6] >> 5,
                offset: (((data[6] & 0x1F) as u16) << 8) | (data[7] as u16),
                ttl: data[8],
                protocol: data[9],
                checksum: be16_of(data, 10),
                source_address: ipv4_address_at(data, 12),
                destination_address: ipv4_address_at(data, 16),
                packet_data: data.skip(4 * ihl as int),
            })
        }
    }
}

impl Ipv4Packet {
    /// Decodes a slice beginning at an IPv4 packet.
    pub fn decode(data: &[u8]) -> (r: Result<Ipv4Packet, DecodeError>)
        ensures
            match r {
                Ok(p) => spec_decode_ipv4(data@) == Ok::<Ipv4PacketView, DecodeError>(p@),
                Err(e) => spec_decode_ipv4(data@) == Err::<Ipv4PacketView, DecodeError>(e),
            },
    {
        if data.len() < 1 {
            return Err(DecodeError::TruncatedInput);
        }
        let b0 = data[0];
        let ihl = b0 & 0x0F;
        if ihl < 5 {
            return Err(DecodeError::InvalidHeaderLength);
        }
        let header_length = 4 * ihl as usize;
        if data.len() < header_length {
            return Err(DecodeError::TruncatedInput);
        }
        let total_length = match read_u16(data, 2) {
            Ok(v) => v,
            Err(e) => {
                return Err(e);
            },
        };
        let id = match read_u16(data, 4) {
            Ok(v) => v,
            Err(e) => {
                return Err(e);
            },
        };
        let checksum = match read_u16(data, 10) {
            Ok(v) => v,
            Err(e) => {
                return Err(e);
            },
        };
        let p = Ipv4Packet {
            version: b0 >> 4,
            ihl,
            tos: data[1],
            total_length,
            id,
            flags: data[6] >> 5,
            offset: (((data[6] & 0x1F) as u16) << 8) | (data[7] as u16),
            ttl: data[8],
            protocol: data[9],
            checksum,
            source_address: Ipv4Address(data[12], data[13], data[14], data[15]),
            destination_address: Ipv4Address(data[16], data[17], data[18], data[19]),
            packet_data: slice_to_vec(slice_subrange(data, header_length, data.len())),
        };
        Ok(p)
    }

    /// The IP version from the top nibble of byte 0.
    pub fn version(&self) -> (r: u8)
        ensures
            r == self@.version,
    {
        self.version
    }

    /// The header length in 32-bit words.
    pub fn ihl(&self) -> (r: u8)
        ensures
            r == self@.ihl,
    {
        self.ihl
    }

    /// The type-of-service byte.
    pub fn tos(&self) -> (r: u8)
        ensures
            r == self@.tos,
    {
        self.tos
    }

    /// The declared total length of header and payload.
    pub fn total_length(&self) -> (r: u16)
        ensures
            r == self@.total_length,
    {
        self.total_length
    }

    /// The identification field.
    pub fn id(&self) -> (r: u16)
        ensures
            r == self@.id,
    {
        self.id
    }

    /// The top three bits of byte 6.
    pub fn flags(&self) -> (r: u8)
        ensures
            r == self@.flags,
    {
        self.flags
    }

    /// The 13-bit fragment offset spanning bytes 6 and 7.
    pub fn offset(&self) -> (r: u16)
        ensures
            r == self@.offset,
    {
        self.offset
    }

    /// The time-to-live byte.
    pub fn ttl(&self) -> (r: u8)
        ensures
            r == self@.ttl,
    {
        self.ttl
    }

    /// The protocol discriminant that selects the next decoder.
    pub fn protocol(&self) -> (r: Protocol)
        ensures
            r == self@.protocol,
    {
        self.protocol
    }

    /// The header checksum as carried; it is not validated here.
    pub fn checksum(&self) -> (r: u16)
        ensures
            r == self@.checksum,
    {
        self.checksum
    }

    /// The source address.
    pub fn source(&self) -> (r: Ipv4Address)
        ensures
            r == self@.source_address,
    {
        self.source_address
    }

    /// The destination address.
    pub fn destination(&self) -> (r: Ipv4Address)
        ensures
            r == self@.destination_address,
    {
        self.destination_address
    }
}

impl DataContainer for Ipv4Packet {
    open spec fn data_view(&self) -> Seq<u8> {
        self@.packet_data
    }

    fn data(&self) -> (r: &[u8]) {
        self.packet_data.as_slice()
    }
}

} // verus!
