//! The streaming decoder: alternately takes a four-byte previous-tag-size
//! field and a complete tag off the front of a buffer of pending bytes.
use vstd::prelude::*;

use bytes::{Bytes, BytesMut};

use crate::buffer::{advance, as_slice, be_u32, freeze, payload_of, pending_of, split_to, take_u32};
use crate::error::FlvError;
use crate::media::{AudioDataHeader, VideoDataHeader};
use crate::tag::{
    AudioData, BodyModel, Field, FieldModel, ScriptData, Tag, TagData, TagHeader, TagType,
    VideoData,
};

verus! {

/// Length of the previous-tag-size field.
pub const PRE_TAG_SIZE_SIZE: usize = 4;

/// Length of a tag header.
pub const TAG_HEADER_SIZE: usize = 11;

/// Which record the decoder expects next.
#[derive(Debug, Clone, Copy, PartialEq, Eq, Structural)]
pub enum CodecStatus {
    PreTagSize,
    Tag,
}

impl Default for CodecStatus {
    fn default() -> (r: CodecStatus)
        ensures
            r == CodecStatus::PreTagSize,
    {
        CodecStatus::PreTagSize
    }
}

/// The outcome of one decoding step on a buffer, as a value.
pub enum Step {
    /// A record, the number of bytes it took from the front, and the next status.
    Emit(FieldModel, int, CodecStatus),
    /// Not enough bytes yet: nothing is taken and the status stays.
    NeedMore,
    /// The stream cannot be decoded; nothing is taken and the status stays.
    Fail(FlvError),
}

/// Bytes 8, 9 and 10 of a tag header, the stream id, are all zero.
pub open spec fn stream_id_is_zero(s: Seq<u8>) -> bool {
    s[8] == 0 && s[9] == 0 && s[10] == 0
}

/// The header decoded from the first 11 bytes of `s`.
pub open spec fn spec_tag_header(s: Seq<u8>) -> TagHeader {
    TagHeader {
        tag_type: TagType::spec_from_byte(s[0]),
        data_size: be_u32(0, s[1], s[2], s[3]) as u32,
        timestamp: be_u32(s[7], s[4], s[5], s[6]) as i32,
    }
}

/// The body of a tag of type `t` whose body bytes are `body`.
pub open spec fn spec_tag_body(t: TagType, body: Seq<u8>) -> Result<BodyModel, FlvError> {
    match t {
        TagType::Audio => if body.len() == 0 {
            Err(FlvError::EmptyTagBody)
        } else {
            match AudioDataHeader::spec_try_from(body[0]) {
                Ok(h) => Ok(BodyModel::Audio(h, body.skip(1))),
                Err(e) => Err(e),
            }
        },
        TagType::Video => if body.len() == 0 {
            Err(FlvError::EmptyTagBody)
        } else {
            match VideoDataHeader::spec_try_from(body[0]) {
                Ok(h) => Ok(BodyModel::Video(h, body.skip(1))),
                Err(e) => Err(e),
            }
        },
        TagType::Script => Ok(BodyModel::Script(body)),
        TagType::Reserved(_) => Ok(BodyModel::Reserved(body)),
    }
}

/// One decoding step in status `st` on the pending bytes `s`.
pub open spec fn step(st: CodecStatus, s: Seq<u8>) -> Step {
    match st {
        CodecStatus::PreTagSize => if s.len() < 4 {
            Step::NeedMore
        } else {
            Step::Emit(
                FieldModel::PreTagSize(be_u32(s[0], s[1], s[2], s[3]) as u32),
                4,
                CodecStatus::Tag,
            )
        },
        CodecStatus::Tag => if s.len() < 11 {
            Step::NeedMore
        } else if !stream_id_is_zero(s) {
            Step::Fail(FlvError::InvalidTagHeader)
        } else {
            let h = spec_tag_header(s);
            let end = 11 + h.data_size;
            if s.len() < end {
                Step::NeedMore
            } else {
                match spec_tag_body(h.tag_type, s.subrange(11, end)) {
                    Ok(b) => Step::Emit(FieldModel::Tag(h, b), end, CodecStatus::PreTagSize),
                    Err(e) => Step::Fail(e),
                }
            }
        },
    }
}

/// The streaming decoder. It starts by expecting a previous-tag-size field.
#[derive(Debug)]
pub struct BodyDecoder {
    status: CodecStatus,
}

impl View for BodyDecoder {
    type V = CodecStatus;

    closed spec fn view(&self) -> CodecStatus {
        self.status
    }
}

impl Default for BodyDecoder {
    fn default() -> (r: BodyDecoder)
        ensures
            r@ == CodecStatus::PreTagSize,
    {
        BodyDecoder { status: CodecStatus::default() }
    }
}

impl BodyDecoder {
    /// Which record the decoder expects next.
    pub fn status(&self) -> (r: CodecStatus)
        ensures
            r == self@,
    {
        self.status
    }

    /// Takes the header and the `size` body bytes of a tag off `src`, drops
    /// the first `skip` body bytes, and expects a previous-tag-size next.
    fn take_tag(&mut self, src: &mut BytesMut, size: usize, skip: usize) -> (r: Bytes)
        requires
            TAG_HEADER_SIZE + size <= pending_of(*old(src)).len(),
            skip <= size,
        ensures
            payload_of(r) == pending_of(*old(src)).subrange(
                TAG_HEADER_SIZE + skip,
                TAG_HEADER_SIZE + size,
            ),
            pending_of(*final(src)) == pending_of(*old(src)).skip(TAG_HEADER_SIZE + size),
            final(self)@ == CodecStatus::PreTagSize,
    {
        let ghost s = pending_of(*src);
        advance(src, TAG_HEADER_SIZE);
        let mut data = split_to(src, size);
        advance(&mut data, skip);
        self.status = CodecStatus::PreTagSize;
        assert(pending_of(*src) =~= s.skip(TAG_HEADER_SIZE + size));
        assert(pending_of(data) =~= s.subrange(TAG_HEADER_SIZE + skip, TAG_HEADER_SIZE + size));
        freeze(data)
    }

    /// Tries to take one record off the front of `src`.
    ///
    /// Returns `Ok(Some(record))` and drops exactly the bytes of the record,
    /// `Ok(None)` when more bytes are needed, leaving `src` as it was, or the
    /// error that makes the stream undecodable, also leaving `src` as it was.
    pub fn decode(&mut self, src: &mut BytesMut) -> (r: Result<Option<Field>, FlvError>)
        ensures
            match step(old(self)@, pending_of(*old(src))) {
                Step::Emit(f, n, st) => {
                    &&& r matches Ok(Some(x)) && x@ == f
                    &&& final(self)@ == st
                    &&& pending_of(*final(src)) == pending_of(*old(src)).skip(n)
                },
                Step::NeedMore => {
                    &&& r matches Ok(None)
                    &&& final(self)@ == old(self)@
                    &&& pending_of(*final(src)) == pending_of(*old(src))
                },
                Step::Fail(e) => {
                    &&& r == Err::<Option<Field>, FlvError>(e)
                    &&& final(self)@ == old(self)@
                    &&& pending_of(*final(src)) == pending_of(*old(src))
                },
            },
    {
        let ghost s0 = pending_of(*src);
        match self.status {
            CodecStatus::PreTagSize => {
                let len = as_slice(src).len();
                if len >= PRE_TAG_SIZE_SIZE {
                    self.status = CodecStatus::Tag;
                    let pre_tag_size = take_u32(src);
                    Ok(Some(Field::PreTagSize(pre_tag_size)))
                } else {
                    Ok(None)
                }
            },
            CodecStatus::Tag => {
                let s = as_slice(src);
                if s.len() < TAG_HEADER_SIZE {
                    return Ok(None);
                }
                if s[8] != 0 || s[9] != 0 || s[10] != 0 {
                    return Err(FlvError::InvalidTagHeader);
                }
                let tag_type = TagType::from_byte(s[0]);
                // A 24-bit big-endian length.
                let data_size: u32 = (s[1] as u32) * 0x10000 + (s[2] as u32) * 0x100
                    + (s[3] as u32);
                // The extension byte gives bits 31 to 24, the 24-bit field the rest.
                let stamp: u32 = (s[7] as u32) * 0x1000000 + (s[4] as u32) * 0x10000 + (s[5]
                    as u32) * 0x100 + (s[6] as u32);
                let header = TagHeader { tag_type, data_size, timestamp: stamp as i32 };
                assert(header == spec_tag_header(s0));
                if s.len() - TAG_HEADER_SIZE < data_size as usize {
                    return Ok(None);
                }
                let size = data_size as usize;
                let ghost body = s0.subrange(11, 11 + size);
                match tag_type {
                    TagType::Audio => {
                        if size == 0 {
                            return Err(FlvError::EmptyTagBody);
                        }
                        let audio = match AudioDataHeader::try_from(s[TAG_HEADER_SIZE]) {
                            Ok(h) => h,
                            Err(e) => return Err(e),
                        };
                        let data = self.take_tag(src, size, 1);
                        assert(payload_of(data) =~= body.skip(1));
                        Ok(Some(Field::Tag(Tag {
                            header,
                            data: TagData::Audio(AudioData { header: audio, data }),
                        })))
                    },
                    TagType::Video => {
                        if size == 0 {
                            return Err(FlvError::EmptyTagBody);
                        }
                        let video = match VideoDataHeader::try_from(s[TAG_HEADER_SIZE]) {
                            Ok(h) => h,
                            Err(e) => return Err(e),
                        };
                        let data = self.take_tag(src, size, 1);
                        assert(payload_of(data) =~= body.skip(1));
                        Ok(Some(Field::Tag(Tag {
                            header,
                            data: TagData::Video(VideoData { header: video, data }),
                        })))
                    },
                    TagType::Script => {
                        let raw = self.take_tag(src, size, 0);
                        Ok(Some(Field::Tag(Tag {
                            header,
                            data: TagData::Script(ScriptData::new(raw)),
                        })))
                    },
                    TagType::Reserved(_) => {
                        let data = self.take_tag(src, size, 0);
                        Ok(Some(Field::Tag(Tag { header, data: TagData::Reserved(data) })))
                    },
                }
            },
        }
    }
}

} // verus!
