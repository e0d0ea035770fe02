//! Incremental decoder for the FLV (Flash Video) container format.
//!
//! The library turns the fixed file header and the stream of tags that follows
//! it into typed records. It performs no I/O: the caller supplies bytes in any
//! grouping, and the decoder hands back one record at a time once enough of
//! them are buffered, leaving the rest pending.
//!
//! - `media`: the header byte of audio and video tag bodies, field by field.
//! - `tag`: tags, their bodies and the records emitted, with their models.
//! - `decoder`: the streaming decoder and the single step it performs.
//! - `stream`: repeated decoding, chunked input, and the laws about them.
//! - `header`: the nine-byte file header.
//! - `buffer`: the `bytes` buffers, behind trusted wrappers.
pub mod buffer;
pub mod decoder;
pub mod error;
pub mod header;
pub mod media;
pub mod stream;
pub mod tag;

pub use decoder::{BodyDecoder, CodecStatus};
pub use error::FlvError;
pub use header::{parse_header, Header};
pub use media::{
    AudioDataHeader, CodecId, SoundFormat, SoundRate, SoundSize, SoundType, VideoDataHeader,
    VideoFrameType,
};
pub use tag::{AudioData, Field, ScriptData, Tag, TagData, TagHeader, TagType, VideoData};
