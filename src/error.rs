use vstd::prelude::*;

verus! {

/// Why a stream, or one of its tags, cannot be decoded.
///
/// Every kind is fatal: the decoder makes no attempt to resynchronise.
#[derive(Debug, Clone, Copy, PartialEq, Eq, Structural)]
pub enum FlvError {
    /// The file does not start with the ASCII signature `FLV`.
    MalformedSignature,
    /// Fewer than the nine bytes of the file header were available.
    TruncatedHeader,
    /// The stream-id field of a tag header (its last three bytes) is not zero.
    InvalidTagHeader,
    /// An audio or video tag declares an empty body, so it has no media header byte.
    EmptyTagBody,
    /// The sound format nibble of an audio header byte is 12 or 13.
    InvalidSoundFormat(u8),
    /// The frame type nibble of a video header byte is outside 1 to 5.
    InvalidFrameType(u8),
    /// The codec id nibble of a video header byte is outside 1 to 7.
    InvalidCodecId(u8),
}

} // verus!
