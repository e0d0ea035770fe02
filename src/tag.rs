//! Tags, their headers and bodies, and the records that the decoder emits,
//! each with a mathematical model for contracts.
use vstd::prelude::*;

use bytes::Bytes;

use crate::buffer::payload_of;
use crate::media::{AudioDataHeader, VideoDataHeader};

verus! {

/// The kind of a tag, from the first byte of its header.
#[derive(Debug, Clone, Copy, PartialEq, Eq, Structural)]
pub enum TagType {
    /// Byte 8.
    Audio,
    /// Byte 9.
    Video,
    /// Byte 18.
    Script,
    /// Any other byte, kept as it was.
    Reserved(u8),
}

/// The fixed 11-byte header of a tag, without its always-zero stream id.
#[derive(Debug, Clone, Copy, PartialEq, Eq, Structural)]
pub struct TagHeader {
    pub tag_type: TagType,
    /// Length of the body that follows the header, from a 24-bit field.
    pub data_size: u32,
    /// Milliseconds since the first tag; the extension byte gives bits 31 to 24.
    pub timestamp: i32,
}

/// An audio tag body: its decoded header byte and the bytes after it.
#[derive(Debug)]
pub struct AudioData {
    pub header: AudioDataHeader,
    pub data: Bytes,
}

/// A video tag body: its decoded header byte and the bytes after it.
#[derive(Debug)]
pub struct VideoData {
    pub header: VideoDataHeader,
    pub data: Bytes,
}

/// A script tag body, passed through undecoded.
#[derive(Debug)]
pub struct ScriptData {
    raw: Bytes,
}

/// The body of a tag, by tag type.
#[derive(Debug)]
pub enum TagData {
    Audio(AudioData),
    Video(VideoData),
    Script(ScriptData),
    Reserved(Bytes),
}

/// A complete tag.
#[derive(Debug)]
pub struct Tag {
    pub header: TagHeader,
    pub data: TagData,
}

/// One record of the stream after the file header.
#[derive(Debug)]
pub enum Field {
    /// The size of the tag before it (0 before the first tag).
    PreTagSize(u32),
    Tag(Tag),
}

/// What a tag body holds.
pub enum BodyModel {
    Audio(AudioDataHeader, Seq<u8>),
    Video(VideoDataHeader, Seq<u8>),
    Script(Seq<u8>),
    Reserved(Seq<u8>),
}

/// What a record holds.
pub enum FieldModel {
    PreTagSize(u32),
    Tag(TagHeader, BodyModel),
}

impl TagType {
    pub open spec fn spec_from_byte(b: u8) -> TagType {
        if b == 8 {
            TagType::Audio
        } else if b == 9 {
            TagType::Video
        } else if b == 18 {
            TagType::Script
        } else {
            TagType::Reserved(b)
        }
    }

    /// Classifies the first byte of a tag header.
    pub fn from_byte(b: u8) -> (r: TagType)
        ensures
            r == Self::spec_from_byte(b),
    {
        match b {
            8 => TagType::Audio,
            9 => TagType::Video,
            18 => TagType::Script,
            n => TagType::Reserved(n),
        }
    }
}

impl ScriptData {
    pub(crate) fn new(raw: Bytes) -> (r: ScriptData)
        ensures
            r.raw_view() == payload_of(raw),
    {
        ScriptData { raw }
    }

    /// The bytes of the script payload.
    pub closed spec fn raw_view(&self) -> Seq<u8> {
        payload_of(self.raw)
    }

    /// The script payload, undecoded.
    pub fn raw(&self) -> (r: &Bytes)
        ensures
            payload_of(*r) == self.raw_view(),
    {
        &self.raw
    }
}

impl View for TagData {
    type V = BodyModel;

    open spec fn view(&self) -> BodyModel {
        match self {
            TagData::Audio(a) => BodyModel::Audio(a.header, payload_of(a.data)),
            TagData::Video(v) => BodyModel::Video(v.header, payload_of(v.data)),
            TagData::Script(s) => BodyModel::Script(s.raw_view()),
            TagData::Reserved(b) => BodyModel::Reserved(payload_of(*b)),
        }
    }
}

impl View for Field {
    type V = FieldModel;

    open spec fn view(&self) -> FieldModel {
        match self {
            Field::PreTagSize(n) => FieldModel::PreTagSize(*n),
            Field::Tag(t) => FieldModel::Tag(t.header, t.data@),
        }
    }
}

} // verus!
