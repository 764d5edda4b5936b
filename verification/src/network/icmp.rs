use vstd::prelude::*;
use vstd::slice::{slice_subrange, slice_to_vec};
use crate::error::DecodeError;
use crate::util::{be16_of, be32_of, read_u16, read_u32};

verus! {

pub const ICMP_ECHO: u8 = 8;

pub const ICMP_ECHO_REPLY: u8 = 0;

/// A fixed eight-byte ICMP header: type, code, checksum and the 32-bit
/// rest-of-header field carrying type-specific data.
#[derive(Clone, Copy, Debug, PartialEq, Eq, Structural)]
pub struct ICMPSegment {
    pub icmp_type: u8,
    pub code: u8,
    pub checksum: u16,
    pub rest: u32,
}

/// The ICMP type tag: 8 is an echo request, 0 an echo reply; any other
/// value is carried through as `Unknown`.
#[derive(Clone, Copy, Debug, PartialEq, Eq, Structural)]
pub enum IcmpKind {
    Echo,
    EchoReply,
    Unknown(u8),
}

/// Maps the ICMP type byte to its tag.
pub open spec fn spec_icmp_kind(icmp_type: u8) -> IcmpKind {
    if icmp_type == ICMP_ECHO {
        IcmpKind::Echo
    } else if icmp_type == ICMP_ECHO_REPLY {
        IcmpKind::EchoReply
    } else {
        IcmpKind::Unknown(icmp_type)
    }
}

/// What decoding `data` as an ICMP segment yields: the header fields from
/// bytes 0..8 and the payload from byte 8 on, or `TruncatedInput` on a
/// buffer shorter than the eight-byte header.
pub open spec fn spec_decode_icmp(data: Seq<u8>) -> Result<(ICMPSegment, Seq<u8>), DecodeError> {
    if data.len() < 8 {
        Err(DecodeError::TruncatedInput)
    } else {
        Ok((
            ICMPSegment {
                icmp_type: data[0],
                code: data[1],
                checksum: be16_of(data, 2),
                rest: be32_of(data, 4),
            },
            data.skip(8),
        ))
    }
}

impl ICMPSegment {
    /// Decodes a slice beginning at an ICMP segment, returning the header
    /// and the payload that follows it.
    pub fn decode(data: &[u8]) -> (r: Result<(ICMPSegment, Vec<u8>), DecodeError>)
        ensures
            match r {
                Ok((s, payload)) => spec_decode_icmp(data@) == Ok::<(ICMPSegment, Seq<u8>), DecodeError>(
                    (s, payload@),
                ),
                Err(e) => spec_decode_icmp(data@) == Err::<(ICMPSegment, Seq<u8>), DecodeError>(e),
            },
    {
        if data.len() < 8 {
            return Err(DecodeError::TruncatedInput);
        }
        let checksum = match read_u16(data, 2) {
            Ok(v) => v,
            Err(e) => {
                return Err(e);
            },
        };
        let rest = match read_u32(data, 4) {
            Ok(v) => v,
            Err(e) => {
                return Err(e);
            },
        };
        let s = ICMPSegment { icmp_type: data[0], code: data[1], checksum, rest };
        let payload = slice_to_vec(slice_subrange(data, 8, data.len()));
        Ok((s, payload))
    }

    /// The type tag this segment carries.
    pub fn kind(&self) -> (r: IcmpKind)
        ensures
            r == spec_icmp_kind(self.icmp_type),
    {
        if self.icmp_type == ICMP_ECHO {
            IcmpKind::Echo
        } else if self.icmp_type == ICMP_ECHO_REPLY {
            IcmpKind::EchoReply
        } else {
            IcmpKind::Unknown(self.icmp_type)
        }
    }
}

} // verus!
