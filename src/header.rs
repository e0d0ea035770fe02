//! The fixed nine-byte header at the start of an FLV file.
use vstd::prelude::*;

use crate::buffer::be_u32;
use crate::error::FlvError;

verus! {

/// Length of the file header.
pub const FILE_HEADER_SIZE: usize = 9;

/// The file header: version, type flags (kept raw) and data offset.
#[derive(Debug, Clone, Copy, PartialEq, Eq, Structural)]
pub struct Header {
    pub version: u8,
    /// Bit flags for the presence of audio and video, as stored.
    pub type_: u8,
    /// Offset of the first previous-tag-size field, as stored.
    pub offset: u32,
}

/// The first three bytes of `s` are the ASCII signature `FLV`.
pub open spec fn has_signature(s: Seq<u8>) -> bool {
    s[0] == 0x46 && s[1] == 0x4C && s[2] == 0x56
}

/// The file header that the first nine bytes of `s` hold.
pub open spec fn spec_parse_header(s: Seq<u8>) -> Result<Header, FlvError> {
    if s.len() < 9 {
        Err(FlvError::TruncatedHeader)
    } else if !has_signature(s) {
        Err(FlvError::MalformedSignature)
    } else {
        Ok(Header { version: s[3], type_: s[4], offset: be_u32(s[5], s[6], s[7], s[8]) as u32 })
    }
}

/// The nine bytes that encode `h`.
pub open spec fn header_bytes(h: Header) -> Seq<u8> {
    seq![
        0x46u8,
        0x4Cu8,
        0x56u8,
        h.version,
        h.type_,
        (h.offset / 0x1000000) as u8,
        (h.offset / 0x10000 % 0x100) as u8,
        (h.offset / 0x100 % 0x100) as u8,
        (h.offset % 0x100) as u8,
    ]
}

/// Parses the file header from the first nine bytes of `bytes`.
pub fn parse_header(bytes: &[u8]) -> (r: Result<Header, FlvError>)
    ensures
        r == spec_parse_header(bytes@),
{
    if bytes.len() < FILE_HEADER_SIZE {
        return Err(FlvError::TruncatedHeader);
    }
    if bytes[0] != 0x46 || bytes[1] != 0x4C || bytes[2] != 0x56 {
        return Err(FlvError::MalformedSignature);
    }
    let offset: u32 = (bytes[5] as u32) * 0x1000000 + (bytes[6] as u32) * 0x10000 + (bytes[7]
        as u32) * 0x100 + (bytes[8] as u32);
    Ok(Header { version: bytes[3], type_: bytes[4], offset })
}

/// Parsing the encoding of any file header gives that header back.
pub proof fn lemma_header_round_trip(h: Header)
    ensures
        spec_parse_header(header_bytes(h)) == Ok::<Header, FlvError>(h),
{
    let o = h.offset;
    assert(be_u32(
        (o / 0x1000000) as u8,
        (o / 0x10000 % 0x100) as u8,
        (o / 0x100 % 0x100) as u8,
        (o % 0x100) as u8,
    ) == o) by (nonlinear_arith);
}

/// Nine bytes that do not start with `FLV` are refused for their signature,
/// whatever the other six hold.
pub proof fn lemma_bad_signature(s: Seq<u8>)
    requires
        s.len() >= 9,
        !has_signature(s),
    ensures
        spec_parse_header(s) == Err::<Header, FlvError>(FlvError::MalformedSignature),
{
}

} // verus!
