use vstd::prelude::*;
use vstd::slice::{slice_subrange, slice_to_vec};
use crate::error::DecodeError;
use crate::util::{be16_of, be32_of, read_u16, read_u32};

verus! {

/// A TCP header. The data offset is the header length in 32-bit words,
/// minimum 5, so the payload starts at data-offset·4.
pub struct TcpSegment {
    source_port: u16,
    destination_port: u16,
    sequence_number: u32,
    acknowledgment_number: u32,
    data_offset: u8,
    checksum: u16,
}

/// The mathematical content of a [`TcpSegment`].
pub struct TcpSegmentView {
    pub source_port: u16,
    pub destination_port: u16,
    pub sequence_number: u32,
    pub acknowledgment_number: u32,
    pub data_offset: u8,
    pub checksum: u16,
}

impl View for TcpSegment {
    type V = TcpSegmentView;

    closed spec fn view(&self) -> TcpSegmentView {
        TcpSegmentView {
            source_port: self.source_port,
            destination_port: self.destination_port,
            sequence_number: self.sequence_number,
            acknowledgment_number: self.acknowledgment_number,
            data_offset: self.data_offset,
            checksum: self.checksum,
        }
    }
}

/// What decoding `data` as a TCP segment yields. A buffer shorter than the
/// 20-byte minimum header yields `TruncatedInput`; a data offset below 5
/// yields `InvalidHeaderLength`; a buffer shorter than the data-offset·4
/// header yields `TruncatedInput`; otherwise the payload starts at
/// offset data-offset·4.
pub open spec fn spec_decode_tcp(data: Seq<u8>) -> Result<(TcpSegmentView, Seq<u8>), DecodeError> {
    if data.len() < 20 {
        Err(DecodeError::TruncatedInput)
    } else {
        let off = data[12] >> 4;
        if off < 5 {
            Err(DecodeError::InvalidHeaderLength)
        } else if data.len() < 4 * off as int {
            Err(DecodeError::TruncatedInput)
        } else {
            Ok((
                TcpSegmentView {
                    source_port: be16_of(data, 0),
                    destination_port: be16_of(data, 2),
                    sequence_number: be32_of(data, 4),
                    acknowledgment_number: be32_of(data, 8),
                    data_offset: off,
                    checksum: be16_of(data, 16),
                },
                data.skip(4 * off as int),
            ))
        }
    }
}

impl TcpSegment {
    /// Decodes a slice beginning at a TCP segment, returning the header
    /// and the payload that follows it.
    pub fn decode(data: &[u8]) -> (r: Result<(TcpSegment, Vec<u8>), DecodeError>)
        ensures
            match r {
                Ok((s, payload)) => spec_decode_tcp(data@) == Ok::<
                    (TcpSegmentView, Seq<u8>),
                    DecodeError,
                >((s@, payload@)),
                Err(e) => spec_decode_tcp(data@) == Err::<(TcpSegmentView, Seq<u8>), DecodeError>(
                    e,
                ),
            },
    {
        if data.len() < 20 {
            return Err(DecodeError::TruncatedInput);
        }
        let off = data[12] >> 4;
        if off < 5 {
            return Err(DecodeError::InvalidHeaderLength);
        }
        let header_length = 4 * off as usize;
        if data.len() < header_length {
            return Err(DecodeError::TruncatedInput);
        }
        let source_port = match read_u16(data, 0) {
            Ok(v) => v,
            Err(e) => {
                return Err(e);
            },
        };
        let destination_port = match read_u16(data, 2) {
            Ok(v) => v,
            Err(e) => {
                return Err(e);
            },
        };
        let sequence_number = match read_u32(data, 4) {
            Ok(v) => v,
            Err(e) => {
                return Err(e);
            },
        };
        let acknowledgment_number = match read_u32(data, 8) {
            Ok(v) => v,
            Err(e) => {
                return Err(e);
            },
        };
        let checksum = match read_u16(data, 16) {
            Ok(v) => v,
            Err(e) => {
                return Err(e);
            },
        };
        let s = TcpSegment {
            source_port,
            destination_port,
            sequence_number,
            acknowledgment_number,
            data_offset: off,
            checksum,
        };
        let payload = slice_to_vec(slice_subrange(data, header_length, data.len()));
        Ok((s, payload))
    }

    /// The source port.
    pub fn source(&self) -> (r: u16)
        ensures
            r == self@.source_port,
    {
        self.source_port
    }

    /// The destination port.
    pub fn destination(&self) -> (r: u16)
        ensures
            r == self@.destination_port,
    {
        self.destination_port
    }

    /// The sequence number.
    pub fn sequence_number(&self) -> (r: u32)
        ensures
            r == self@.sequence_number,
    {
        self.sequence_number
    }

    /// The acknowledgment number.
    pub fn acknowledgment_number(&self) -> (r: u32)
        ensures
            r == self@.acknowledgment_number,
    {
        self.acknowledgment_number
    }

    /// The header length in 32-bit words, from the top nibble of byte 12.
    pub fn data_offset(&self) -> (r: u8)
        ensures
            r == self@.data_offset,
    {
        self.data_offset
    }

    /// The checksum as carried; it is not validated here.
    pub fn checksum(&self) -> (r: u16)
        ensures
            r == self@.checksum,
    {
        self.checksum
    }
}

} // verus!
