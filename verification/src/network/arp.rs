use vstd::prelude::*;
use vstd::slice::{slice_subrange, slice_to_vec};
use crate::error::DecodeError;
use crate::util::{be16_of, read_u16};

verus! {

/// An ARP message. The four address fields are variable-length owned
/// copies whose lengths are the hardware- and protocol-address length
/// bytes read from the message itself.
pub struct ARPPacket {
    pub hardware_type: u16,
    pub protocol_type: u16,
    pub hardware_length: u8,
    pub protocol_length: u8,
    pub operation: u16,
    pub sender_hardware_address: Vec<u8>,
    pub sender_protocol_address: Vec<u8>,
    pub receiver_hardware_address: Vec<u8>,
    pub receiver_protocol_address: Vec<u8>,
}

/// The mathematical content of an [`ARPPacket`].
pub struct ARPPacketView {
    pub hardware_type: u16,
    pub protocol_type: u16,
    pub hardware_length: u8,
    pub protocol_length: u8,
    pub operation: u16,
    pub sender_hardware_address: Seq<u8>,
    pub sender_protocol_address: Seq<u8>,
    pub receiver_hardware_address: Seq<u8>,
    pub receiver_protocol_address: Seq<u8>,
}

impl View for ARPPacket {
    type V = ARPPacketView;

    open spec fn view(&self) -> ARPPacketView {
        ARPPacketView {
            hardware_type: self.hardware_type,
            protocol_type: self.protocol_type,
            hardware_length: self.hardware_length,
            protocol_length: self.protocol_length,
            operation: self.operation,
            sender_hardware_address: self.sender_hardware_address@,
            sender_protocol_address: self.sender_protocol_address@,
            receiver_hardware_address: self.receiver_hardware_address@,
            receiver_protocol_address: self.receiver_protocol_address@,
        }
    }
}

/// The ARP operation tag: values 1 and 2 are request and reply; any other
/// value is carried through as `Unknown`.
#[derive(Clone, Copy, Debug, PartialEq, Eq, Structural)]
pub enum ArpOperation {
    Request,
    Reply,
    Unknown(u16),
}

/// Maps the 16-bit operation field to its tag.
pub open spec fn spec_arp_operation(operation: u16) -> ArpOperation {
    if operation == 1 {
        ArpOperation::Request
    } else if operation == 2 {
        ArpOperation::Reply
    } else {
        ArpOperation::Unknown(operation)
    }
}

/// What decoding `data` as an ARP message yields. The fixed fields sit at
/// offsets 0, 2, 4, 5 and 6; the four address fields follow at cumulative
/// offsets 8, 8 + hw, 8 + hw + pr and 8 + 2·hw + pr, where hw and pr are
/// the two length bytes. A buffer shorter than the computed end offset
/// 8 + 2·hw + 2·pr yields `TruncatedInput`.
pub open spec fn spec_decode_arp(data: Seq<u8>) -> Result<ARPPacketView, DecodeError> {
    if data.len() < 8 {
        Err(DecodeError::TruncatedInput)
    } else {
        let hw = data[4] as int;
        let pr = data[5] as int;
        if data.len() < 8 + 2 * hw + 2 * pr {
            Err(DecodeError::TruncatedInput)
        } else {
            Ok(ARPPacketView {
                hardware_type: be16_of(data, 0),
                protocol_type: be16_of(data, 2),
                hardware_length: data[4],
                protocol_length: data[5],
                operation: be16_of(data, 6),
                sender_hardware_address: data.subrange(8, 8 + hw),
                sender_protocol_address: data.subrange(8 + hw, 8 + hw + pr),
                receiver_hardware_address: data.subrange(8 + hw + pr, 8 + 2 * hw + pr),
                receiver_protocol_address: data.subrange(8 + 2 * hw + pr, 8 + 2 * hw + 2 * pr),
            })
        }
    }
}

impl ARPPacket {
    /// Decodes a slice beginning at an ARP message, failing if the end
    /// offset derived from the two length bytes exceeds the buffer.
    pub fn decode(data: &[u8]) -> (r: Result<ARPPacket, DecodeError>)
        ensures
            match r {
                Ok(p) => spec_decode_arp(data@) == Ok::<ARPPacketView, DecodeError>(p@),
                Err(e) => spec_decode_arp(data@) == Err::<ARPPacketView, DecodeError>(e),
            },
    {
        if data.len() < 8 {
            return Err(DecodeError::TruncatedInput);
        }
        let hw = data[4] as usize;
        let pr = data[5] as usize;
        let end = 8 + 2 * hw + 2 * pr;
        if data.len() < end {
            return Err(DecodeError::TruncatedInput);
        }
        let hardware_type = match read_u16(data, 0) {
            Ok(v) => v,
            Err(e) => {
                return Err(e);
            },
        };
        let protocol_type = match read_u16(data, 2) {
            Ok(v) => v,
            Err(e) => {
                return Err(e);
            },
        };
        let operation = match read_u16(data, 6) {
            Ok(v) => v,
            Err(e) => {
                return Err(e);
            },
        };
        let p = ARPPacket {
            hardware_type,
            protocol_type,
            hardware_length: data[4],
            protocol_length: data[5],
            operation,
            sender_hardware_address: slice_to_vec(slice_subrange(data, 8, 8 + hw)),
            sender_protocol_address: slice_to_vec(slice_subrange(data, 8 + hw, 8 + hw + pr)),
            receiver_hardware_address: slice_to_vec(slice_subrange(data, 8 + hw + pr, 8 + 2 * hw + pr)),
            receiver_protocol_address: slice_to_vec(slice_subrange(data, 8 + 2 * hw + pr, end)),
        };
        Ok(p)
    }

    /// The operation tag this message carries.
    pub fn operation_kind(&self) -> (r: ArpOperation)
        ensures
            r == spec_arp_operation(self.operation),
    {
        if self.operation == 1 {
            ArpOperation::Request
        } else if self.operation == 2 {
            ArpOperation::Reply
        } else {
            ArpOperation::Unknown(self.operation)
        }
    }
}

} // verus!
