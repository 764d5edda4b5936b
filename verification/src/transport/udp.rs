use vstd::prelude::*;
use vstd::slice::{slice_subrange, slice_to_vec};
use crate::error::DecodeError;
use crate::util::{be16_of, read_u16, DataContainer};

verus! {

/// A fixed eight-byte UDP header together with the payload that follows
/// it. The declared `length` field is sender-controlled and informational;
/// the payload is bounded by the actual buffer, never by that field.
pub struct UDPSegment {
    source_port: u16,
    destination_port: u16,
    length: u16,
    checksum: u16,
    data: Vec<u8>,
}

/// The mathematical content of a [`UDPSegment`].
pub struct UDPSegmentView {
    pub source_port: u16,
    pub destination_port: u16,
    pub length: u16,
    pub checksum: u16,
    pub data: Seq<u8>,
}

impl View for UDPSegment {
    type V = UDPSegmentView;

    closed spec fn view(&self) -> UDPSegmentView {
        UDPSegmentView {
            source_port: self.source_port,
            destination_port: self.destination_port,
            length: self.length,
            checksum: self.checksum,
            data: self.data@,
        }
    }
}

/// What decoding `data` as a UDP segment yields: the header fields from
/// bytes 0..8 and the payload from byte 8 on, or `TruncatedInput` on a
/// buffer shorter than the eight-byte header.
pub open spec fn spec_decode_udp(data: Seq<u8>) -> Result<UDPSegmentView, DecodeError> {
    if data.len() < 8 {
        Err(DecodeError::TruncatedInput)
    } else {
        Ok(UDPSegmentView {
            source_port: be16_of(data, 0),
            destination_port: be16_of(data, 2),
            length: be16_of(data, 4),
            checksum: be16_of(data, 6),
            data: data.skip(8),
        })
    }
}

impl UDPSegment {
    /// Decodes a slice beginning at a UDP segment.
    pub fn decode(data: &[u8]) -> (r: Result<UDPSegment, DecodeError>)
        ensures
            match r {
                Ok(s) => spec_decode_udp(data@) == Ok::<UDPSegmentView, DecodeError>(s@),
                Err(e) => spec_decode_udp(data@) == Err::<UDPSegmentView, DecodeError>(e),
            },
    {
        if data.len() < 8 {
            return Err(DecodeError::TruncatedInput);
        }
        let source_port = match read_u16(data, 0) {
            Ok(v) => v,
            Err(e) => {
                return Err(e);
            },
        };
        let destination_port = match read_u16(data, 2) {
            Ok(v) => v,
            Err(e) => {
                return Err(e);
            },
        };
        let length = match read_u16(data, 4) {
            Ok(v) => v,
            Err(e) => {
                return Err(e);
            },
        };
        let checksum = match read_u16(data, 6) {
            Ok(v) => v,
            Err(e) => {
                return Err(e);
            },
        };
        let s = UDPSegment {
            source_port,
            destination_port,
            length,
            checksum,
            data: slice_to_vec(slice_subrange(data, 8, data.len())),
        };
        Ok(s)
    }

    /// The source port.
    pub fn source(&self) -> (r: u16)
        ensures
            r == self@.source_port,
    {
        self.source_port
    }

    /// The destination port.
    pub fn destination(&self) -> (r: u16)
        ensures
            r == self@.destination_port,
    {
        self.destination_port
    }

    /// The declared segment length as carried; the payload is bounded by
    /// the buffer, not by this field.
    pub fn length(&self) -> (r: u16)
        ensures
            r == self@.length,
    {
        self.length
    }

    /// The checksum as carried; it is not validated here.
    pub fn checksum(&self) -> (r: u16)
        ensures
            r == self@.checksum,
    {
        self.checksum
    }
}

impl DataContainer for UDPSegment {
    open spec fn data_view(&self) -> Seq<u8> {
        self@.data
    }

    fn data(&self) -> (r: &[u8]) {
        self.data.as_slice()
    }
}

} // verus!
