use vstd::prelude::*;
use vstd::slice::{slice_subrange, slice_to_vec};
use crate::error::DecodeError;
use crate::util::{be16_of, DataContainer};

verus! {

/// A six-byte link-layer hardware address.
#[derive(Clone, Copy, Debug, PartialEq, Eq, Structural)]
pub struct MacAddress(pub u8, pub u8, pub u8, pub u8, pub u8, pub u8);

/// The hardware address formed by six bytes of `s` starting at `i`.
pub open spec fn mac_at(s: Seq<u8>, i: int) -> MacAddress
    recommends
        0 <= i,
        i + 6 <= s.len(),
{
    MacAddress(s[i], s[i + 1], s[i + 2], s[i + 3], s[i + 4], s[i + 5])
}

/// An Ethernet II frame: destination and source addresses, the 16-bit
/// ether-type naming the next-layer protocol, and the payload from byte 14
/// onward, copied out of the capture buffer.
pub struct Frame {
    destination: MacAddress,
    source: MacAddress,
    frame_type: u16,
    frame_data: Vec<u8>,
}

/// The mathematical content of a [`Frame`].
pub struct FrameView {
    pub destination: MacAddress,
    pub source: MacAddress,
    pub frame_type: u16,
    pub frame_data: Seq<u8>,
}

impl View for Frame {
    type V = FrameView;

    closed spec fn view(&self) -> FrameView {
        FrameView {
            destination: self.destination,
            source: self.source,
            frame_type: self.frame_type,
            frame_data: self.frame_data@,
        }
    }
}

/// What decoding `data` as a link frame yields: the addresses from bytes
/// 0..6 and 6..12, the ether-type from bytes 12..14, and the payload from
/// byte 14 on; or `TruncatedInput` on a buffer shorter than 14 bytes.
pub open spec fn spec_decode_frame(data: Seq<u8>) -> Result<FrameView, DecodeError> {
    if data.len() < 14 {
        Err(DecodeError::TruncatedInput)
    } else {
        Ok(FrameView {
            destination: mac_at(data, 0),
            source: mac_at(data, 6),
            frame_type: be16_of(data, 12),
            frame_data: data.skip(14),
        })
    }
}

impl Frame {
    /// Decodes a raw captured frame, failing on fewer than 14 bytes.
    pub fn decode(data: &[u8]) -> (r: Result<Frame, DecodeError>)
        ensures
            match r {
                Ok(f) => spec_decode_frame(data@) == Ok::<FrameView, DecodeError>(f@),
                Err(e) => spec_decode_frame(data@) == Err::<FrameView, DecodeError>(e),
            },
    {
        if data.len() < 14 {
            return Err(DecodeError::TruncatedInput);
        }
        let destination = MacAddress(data[0], data[1], data[2], data[3], data[4], data[5]);
        let source = MacAddress(data[6], data[7], data[8], data[9], data[10], data[11]);
        let frame_type = ((data[12] as u16) << 8) | (data[13] as u16);
        let frame_data = slice_to_vec(slice_subrange(data, 14, data.len()));
        let f = Frame { destination, source, frame_type, frame_data };
        Ok(f)
    }

    /// The destination hardware address.
    pub fn destination(&self) -> (r: &MacAddress)
        ensures
            *r == self@.destination,
    {
        &self.destination
    }

    /// The source hardware address.
    pub fn source(&self) -> (r: &MacAddress)
        ensures
            *r == self@.source,
    {
        &self.source
    }

    /// The ether-type discriminant that selects the next decoder.
    pub fn frame_type(&self) -> (r: u16)
        ensures
            r == self@.frame_type,
    {
        self.frame_type
    }
}

impl DataContainer for Frame {
    open spec fn data_view(&self) -> Seq<u8> {
        self@.frame_data
    }

    fn data(&self) -> (r: &[u8]) {
        self.frame_data.as_slice()
    }
}

} // verus!
