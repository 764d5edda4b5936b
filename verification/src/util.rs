use vstd::prelude::*;
use crate::error::DecodeError;

verus! {

/// Byte-for-byte access to the payload a decoded layer carries.
pub trait DataContainer {
    /// The payload bytes as a mathematical sequence.
    spec fn data_view(&self) -> Seq<u8>;

    /// The payload bytes.
    fn data(&self) -> (r: &[u8])
        ensures
            r@ == self.data_view(),
    ;
}

/// The big-endian 16-bit integer formed by two bytes of `s` starting at `i`.
pub open spec fn be16_of(s: Seq<u8>, i: int) -> u16
    recommends
        0 <= i,
        i + 2 <= s.len(),
{
    ((s[i] as u16) << 8) | (s[i + 1] as u16)
}

/// The big-endian 32-bit integer formed by four bytes of `s` starting at `i`.
pub open spec fn be32_of(s: Seq<u8>, i: int) -> u32
    recommends
        0 <= i,
        i + 4 <= s.len(),
{
    ((be16_of(s, i) as u32) << 16) | (be16_of(s, i + 2) as u32)
}

/// The big-endian 64-bit integer formed by eight bytes of `s` starting at `i`.
pub open spec fn be64_of(s: Seq<u8>, i: int) -> u64
    recommends
        0 <= i,
        i + 8 <= s.len(),
{
    ((be32_of(s, i) as u64) << 32) | (be32_of(s, i + 4) as u64)
}

/// The big-endian 128-bit integer formed by sixteen bytes of `s` starting at `i`.
pub open spec fn be128_of(s: Seq<u8>, i: int) -> u128
    recommends
        0 <= i,
        i + 16 <= s.len(),
{
    ((be64_of(s, i) as u128) << 64) | (be64_of(s, i + 8) as u128)
}

/// Reads the big-endian 16-bit integer at offset `off`, after an explicit
/// bounds check. Every multi-byte read in every decoder routes through
/// these readers; no decoder indexes past a checked bound.
pub fn read_u16(data: &[u8], off: usize) -> (r: Result<u16, DecodeError>)
    ensures
        r == (if off + 2 <= data@.len() {
            Ok::<u16, DecodeError>(be16_of(data@, off as int))
        } else {
            Err::<u16, DecodeError>(DecodeError::TruncatedInput)
        }),
{
    if data.len() >= 2 && off <= data.len() - 2 {
        Ok(((data[off] as u16) << 8) | (data[off + 1] as u16))
    } else {
        Err(DecodeError::TruncatedInput)
    }
}

/// Reads the big-endian 32-bit integer at offset `off`.
pub fn read_u32(data: &[u8], off: usize) -> (r: Result<u32, DecodeError>)
    ensures
        r == (if off + 4 <= data@.len() {
            Ok::<u32, DecodeError>(be32_of(data@, off as int))
        } else {
            Err::<u32, DecodeError>(DecodeError::TruncatedInput)
        }),
{
    if data.len() >= 4 && off <= data.len() - 4 {
        let hi = match read_u16(data, off) {
            Ok(v) => v,
            Err(e) => {
                return Err(e);
            },
        };
        let lo = match read_u16(data, off + 2) {
            Ok(v) => v,
            Err(e) => {
                return Err(e);
            },
        };
        Ok(((hi as u32) << 16) | (lo as u32))
    } else {
        Err(DecodeError::TruncatedInput)
    }
}

/// Reads the big-endian 64-bit integer at offset `off`.
pub fn read_u64(data: &[u8], off: usize) -> (r: Result<u64, DecodeError>)
    ensures
        r == (if off + 8 <= data@.len() {
            Ok::<u64, DecodeError>(be64_of(data@, off as int))
        } else {
            Err::<u64, DecodeError>(DecodeError::TruncatedInput)
        }),
{
    if data.len() >= 8 && off <= data.len() - 8 {
        let hi = match read_u32(data, off) {
            Ok(v) => v,
            Err(e) => {
                return Err(e);
            },
        };
        let lo = match read_u32(data, off + 4) {
            Ok(v) => v,
            Err(e) => {
                return Err(e);
            },
        };
        Ok(((hi as u64) << 32) | (lo as u64))
    } else {
        Err(DecodeError::TruncatedInput)
    }
}

/// Reads the big-endian 128-bit integer at offset `off`.
pub fn read_u128(data: &[u8], off: usize) -> (r: Result<u128, DecodeError>)
    ensures
        r == (if off + 16 <= data@.len() {
            Ok::<u128, DecodeError>(be128_of(data@, off as int))
        } else {
            Err::<u128, DecodeError>(DecodeError::TruncatedInput)
        }),
{
    if data.len() >= 16 && off <= data.len() - 16 {
        let hi = match read_u64(data, off) {
            Ok(v) => v,
            Err(e) => {
                return Err(e);
            },
        };
        let lo = match read_u64(data, off + 8) {
            Ok(v) => v,
            Err(e) => {
                return Err(e);
            },
        };
        Ok(((hi as u128) << 64) | (lo as u128))
    } else {
        Err(DecodeError::TruncatedInput)
    }
}

/// The big-endian 16-bit integer formed by the first two bytes.
pub fn tou16(data: &[u8]) -> (r: Result<u16, DecodeError>)
    ensures
        r == (if data@.len() >= 2 {
            Ok::<u16, DecodeError>(be16_of(data@, 0))
        } else {
            Err::<u16, DecodeError>(DecodeError::TruncatedInput)
        }),
{
    read_u16(data, 0)
}

/// The big-endian 32-bit integer formed by the first four bytes.
pub fn tou32(data: &[u8]) -> (r: Result<u32, DecodeError>)
    ensures
        r == (if data@.len() >= 4 {
            Ok::<u32, DecodeError>(be32_of(data@, 0))
        } else {
            Err::<u32, DecodeError>(DecodeError::TruncatedInput)
        }),
{
    read_u32(data, 0)
}

/// The big-endian 64-bit integer formed by the first eight bytes.
pub fn tou64(data: &[u8]) -> (r: Result<u64, DecodeError>)
    ensures
        r == (if data@.len() >= 8 {
            Ok::<u64, DecodeError>(be64_of(data@, 0))
        } else {
            Err::<u64, DecodeError>(DecodeError::TruncatedInput)
        }),
{
    read_u64(data, 0)
}

/// The big-endian 128-bit integer formed by the first sixteen bytes.
pub fn tou128(data: &[u8]) -> (r: Result<u128, DecodeError>)
    ensures
        r == (if data@.len() >= 16 {
            Ok::<u128, DecodeError>(be128_of(data@, 0))
        } else {
            Err::<u128, DecodeError>(DecodeError::TruncatedInput)
        }),
{
    read_u128(data, 0)
}

} // verus!
