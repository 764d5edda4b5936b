use vstd::prelude::*;

verus! {

/// Why decoding a frame (or one of its nested layers) stopped.
///
/// None of these is fatal to a caller: a malformed frame is reported and
/// the next frame can be decoded. An unrecognized discriminant value is
/// not an error at all; each dispatch layer has an `Unknown` outcome for
/// that instead.
#[derive(Clone, Copy, Debug, PartialEq, Eq, Structural)]
pub enum DecodeError {
    /// The buffer is shorter than a field or section requires.
    TruncatedInput,
    /// A length-determining header field is below its protocol minimum.
    InvalidHeaderLength,
    /// A DNS label length byte exceeds 63, the label-length ceiling.
    MalformedLabel,
    /// A DNS label length byte with the top two bits set: a name-compression
    /// pointer, which this decoder does not follow.
    UnsupportedCompression,
}

} // verus!
