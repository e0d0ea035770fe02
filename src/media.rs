//! Decoders for the single header byte that opens the body of an audio or a
//! video tag. Each field of the byte has its own decoder and its own set of
//! valid values.
use vstd::prelude::*;

use crate::error::FlvError;

verus! {

/// The codec of an audio tag (bits 7 to 4 of its header byte).
#[derive(Debug, Clone, Copy, PartialEq, Eq, Structural)]
pub enum SoundFormat {
    LinearPCMPlatformEndian,
    ADPCM,
    MP3,
    LinearPCMLittleEndian,
    Nellymoser16,
    Nellymoser8,
    Nellymoser,
    G711ALaw,
    G711MuLaw,
    Reserved,
    AAC,
    Speex,
    MP38kHz,
    DeviceSpecific,
}

/// The sampling rate of an audio tag (bits 3 and 2 of its header byte).
#[derive(Debug, Clone, Copy, PartialEq, Eq, Structural)]
pub enum SoundRate {
    R5p5kHz,
    R11kHz,
    R22kHz,
    R44kHz,
}

/// The sample width of an audio tag (bit 1 of its header byte).
#[derive(Debug, Clone, Copy, PartialEq, Eq, Structural)]
pub enum SoundSize {
    S8Bit,
    S16Bit,
}

/// Mono or stereo (bit 0 of an audio header byte).
#[derive(Debug, Clone, Copy, PartialEq, Eq, Structural)]
pub enum SoundType {
    Mono,
    Stereo,
}

/// The four fields of an audio tag's header byte.
#[derive(Debug, Clone, Copy, PartialEq, Eq, Structural)]
pub struct AudioDataHeader {
    pub sound_format: SoundFormat,
    pub sound_rate: SoundRate,
    pub sound_size: SoundSize,
    pub sound_type: SoundType,
}

/// The kind of frame a video tag carries (bits 7 to 4 of its header byte).
#[derive(Debug, Clone, Copy, PartialEq, Eq, Structural)]
pub enum VideoFrameType {
    KeyFrame,
    InterFrame,
    DisposableInterFrame,
    GeneratedKeyFrame,
    VideoInfoOrCommandFrame,
}

/// The codec of a video tag (bits 3 to 0 of its header byte).
#[derive(Debug, Clone, Copy, PartialEq, Eq, Structural)]
pub enum CodecId {
    JPEG,
    SorensonH263,
    ScreenVideo,
    On2VP6,
    On2VP6WithAlpha,
    ScreenVideoVersion2,
    AVC,
}

/// The two fields of a video tag's header byte.
#[derive(Debug, Clone, Copy, PartialEq, Eq, Structural)]
pub struct VideoDataHeader {
    pub frame_type: VideoFrameType,
    pub codec_id: CodecId,
}

/// The value of the bit field `mask` of `value`, shifted down by `shift`.
pub open spec fn field(value: u8, mask: u8, shift: u8) -> u8 {
    (value & mask) >> shift
}

impl SoundFormat {
    /// The sound format that the field value `n` names; 12 and 13 name none.
    pub open spec fn from_code(n: u8) -> Option<SoundFormat> {
        match n {
            0 => Some(SoundFormat::LinearPCMPlatformEndian),
            1 => Some(SoundFormat::ADPCM),
            2 => Some(SoundFormat::MP3),
            3 => Some(SoundFormat::LinearPCMLittleEndian),
            4 => Some(SoundFormat::Nellymoser16),
            5 => Some(SoundFormat::Nellymoser8),
            6 => Some(SoundFormat::Nellymoser),
            7 => Some(SoundFormat::G711ALaw),
            8 => Some(SoundFormat::G711MuLaw),
            9 => Some(SoundFormat::Reserved),
            10 => Some(SoundFormat::AAC),
            11 => Some(SoundFormat::Speex),
            14 => Some(SoundFormat::MP38kHz),
            15 => Some(SoundFormat::DeviceSpecific),
            _ => None,
        }
    }

    pub open spec fn spec_try_from(value: u8) -> Result<SoundFormat, FlvError> {
        let n = field(value, 0xF0, 4);
        match Self::from_code(n) {
            Some(f) => Ok(f),
            None => Err(FlvError::InvalidSoundFormat(n)),
        }
    }

    /// Decodes the sound format from bits 7 to 4 of an audio header byte.
    pub fn try_from(value: u8) -> (r: Result<SoundFormat, FlvError>)
        ensures
            r == Self::spec_try_from(value),
    {
        let n: u8 = (value & 0xF0) >> 4;
        match n {
            0 => Ok(SoundFormat::LinearPCMPlatformEndian),
            1 => Ok(SoundFormat::ADPCM),
            2 => Ok(SoundFormat::MP3),
            3 => Ok(SoundFormat::LinearPCMLittleEndian),
            4 => Ok(SoundFormat::Nellymoser16),
            5 => Ok(SoundFormat::Nellymoser8),
            6 => Ok(SoundFormat::Nellymoser),
            7 => Ok(SoundFormat::G711ALaw),
            8 => Ok(SoundFormat::G711MuLaw),
            9 => Ok(SoundFormat::Reserved),
            10 => Ok(SoundFormat::AAC),
            11 => Ok(SoundFormat::Speex),
            14 => Ok(SoundFormat::MP38kHz),
            15 => Ok(SoundFormat::DeviceSpecific),
            _ => Err(FlvError::InvalidSoundFormat(n)),
        }
    }
}

impl SoundRate {
    /// The field holds two bits, so every value names a rate.
    pub open spec fn spec_try_from(value: u8) -> Result<SoundRate, FlvError> {
        match field(value, 0x0C, 2) {
            0 => Ok(SoundRate::R5p5kHz),
            1 => Ok(SoundRate::R11kHz),
            2 => Ok(SoundRate::R22kHz),
            _ => Ok(SoundRate::R44kHz),
        }
    }

    /// Decodes the sound rate from bits 3 and 2 of an audio header byte.
    pub fn try_from(value: u8) -> (r: Result<SoundRate, FlvError>)
        ensures
            r == Self::spec_try_from(value),
            r is Ok,
    {
        match (value & 0x0C) >> 2 {
            0 => Ok(SoundRate::R5p5kHz),
            1 => Ok(SoundRate::R11kHz),
            2 => Ok(SoundRate::R22kHz),
            _ => Ok(SoundRate::R44kHz),
        }
    }
}

impl SoundSize {
    pub open spec fn spec_try_from(value: u8) -> Result<SoundSize, FlvError> {
        if field(value, 0x02, 1) == 0 {
            Ok(SoundSize::S8Bit)
        } else {
            Ok(SoundSize::S16Bit)
        }
    }

    /// Decodes the sample width from bit 1 of an audio header byte.
    pub fn try_from(value: u8) -> (r: Result<SoundSize, FlvError>)
        ensures
            r == Self::spec_try_from(value),
            r is Ok,
    {
        if (value & 0x02) >> 1 == 0 {
            Ok(SoundSize::S8Bit)
        } else {
            Ok(SoundSize::S16Bit)
        }
    }
}

impl SoundType {
    pub open spec fn spec_try_from(value: u8) -> Result<SoundType, FlvError> {
        if value & 0x01 == 0 {
            Ok(SoundType::Mono)
        } else {
            Ok(SoundType::Stereo)
        }
    }

    /// Decodes mono or stereo from bit 0 of an audio header byte.
    pub fn try_from(value: u8) -> (r: Result<SoundType, FlvError>)
        ensures
            r == Self::spec_try_from(value),
            r is Ok,
    {
        if value & 0x01 == 0 {
            Ok(SoundType::Mono)
        } else {
            Ok(SoundType::Stereo)
        }
    }
}

impl AudioDataHeader {
    /// All four fields decoded; the first field in error decides the error.
    pub open spec fn spec_try_from(value: u8) -> Result<AudioDataHeader, FlvError> {
        match SoundFormat::spec_try_from(value) {
            Err(e) => Err(e),
            Ok(sound_format) => Ok(
                AudioDataHeader {
                    sound_format,
                    sound_rate: SoundRate::spec_try_from(value)->Ok_0,
                    sound_size: SoundSize::spec_try_from(value)->Ok_0,
                    sound_type: SoundType::spec_try_from(value)->Ok_0,
                },
            ),
        }
    }

    /// Decodes the header byte of an audio tag.
    pub fn try_from(value: u8) -> (r: Result<AudioDataHeader, FlvError>)
        ensures
            r == Self::spec_try_from(value),
    {
        let sound_format = match SoundFormat::try_from(value) {
            Ok(f) => f,
            Err(e) => return Err(e),
        };
        let sound_rate = match SoundRate::try_from(value) {
            Ok(f) => f,
            Err(e) => return Err(e),
        };
        let sound_size = match SoundSize::try_from(value) {
            Ok(f) => f,
            Err(e) => return Err(e),
        };
        let sound_type = match SoundType::try_from(value) {
            Ok(f) => f,
            Err(e) => return Err(e),
        };
        Ok(AudioDataHeader { sound_format, sound_rate, sound_size, sound_type })
    }
}

impl VideoFrameType {
    /// The frame type that the field value `n` names; only 1 to 5 name one.
    pub open spec fn from_code(n: u8) -> Option<VideoFrameType> {
        match n {
            1 => Some(VideoFrameType::KeyFrame),
            2 => Some(VideoFrameType::InterFrame),
            3 => Some(VideoFrameType::DisposableInterFrame),
            4 => Some(VideoFrameType::GeneratedKeyFrame),
            5 => Some(VideoFrameType::VideoInfoOrCommandFrame),
            _ => None,
        }
    }

    pub open spec fn spec_try_from(value: u8) -> Result<VideoFrameType, FlvError> {
        let n = field(value, 0xF0, 4);
        match Self::from_code(n) {
            Some(f) => Ok(f),
            None => Err(FlvError::InvalidFrameType(n)),
        }
    }

    /// Decodes the frame type from bits 7 to 4 of a video header byte.
    pub fn try_from(value: u8) -> (r: Result<VideoFrameType, FlvError>)
        ensures
            r == Self::spec_try_from(value),
    {
        let n: u8 = (value & 0xF0) >> 4;
        match n {
            1 => Ok(VideoFrameType::KeyFrame),
            2 => Ok(VideoFrameType::InterFrame),
            3 => Ok(VideoFrameType::DisposableInterFrame),
            4 => Ok(VideoFrameType::GeneratedKeyFrame),
            5 => Ok(VideoFrameType::VideoInfoOrCommandFrame),
            _ => Err(FlvError::InvalidFrameType(n)),
        }
    }
}

impl CodecId {
    /// The codec that the field value `n` names; only 1 to 7 name one.
    pub open spec fn from_code(n: u8) -> Option<CodecId> {
        match n {
            1 => Some(CodecId::JPEG),
            2 => Some(CodecId::SorensonH263),
            3 => Some(CodecId::ScreenVideo),
            4 => Some(CodecId::On2VP6),
            5 => Some(CodecId::On2VP6WithAlpha),
            6 => Some(CodecId::ScreenVideoVersion2),
            7 => Some(CodecId::AVC),
            _ => None,
        }
    }

    pub open spec fn spec_try_from(value: u8) -> Result<CodecId, FlvError> {
        let n = value & 0x0F;
        match Self::from_code(n) {
            Some(c) => Ok(c),
            None => Err(FlvError::InvalidCodecId(n)),
        }
    }

    /// Decodes the codec id from bits 3 to 0 of a video header byte.
    pub fn try_from(value: u8) -> (r: Result<CodecId, FlvError>)
        ensures
            r == Self::spec_try_from(value),
    {
        let n: u8 = value & 0x0F;
        match n {
            1 => Ok(CodecId::JPEG),
            2 => Ok(CodecId::SorensonH263),
            3 => Ok(CodecId::ScreenVideo),
            4 => Ok(CodecId::On2VP6),
            5 => Ok(CodecId::On2VP6WithAlpha),
            6 => Ok(CodecId::ScreenVideoVersion2),
            7 => Ok(CodecId::AVC),
            _ => Err(FlvError::InvalidCodecId(n)),
        }
    }
}

impl VideoDataHeader {
    /// Both fields decoded; a bad frame type is reported before a bad codec id.
    pub open spec fn spec_try_from(value: u8) -> Result<VideoDataHeader, FlvError> {
        match VideoFrameType::spec_try_from(value) {
            Err(e) => Err(e),
            Ok(frame_type) => match CodecId::spec_try_from(value) {
                Err(e) => Err(e),
                Ok(codec_id) => Ok(VideoDataHeader { frame_type, codec_id }),
            },
        }
    }

    /// Decodes the header byte of a video tag.
    pub fn try_from(value: u8) -> (r: Result<VideoDataHeader, FlvError>)
        ensures
            r == Self::spec_try_from(value),
    {
        let frame_type = match VideoFrameType::try_from(value) {
            Ok(f) => f,
            Err(e) => return Err(e),
        };
        let codec_id = match CodecId::try_from(value) {
            Ok(c) => c,
            Err(e) => return Err(e),
        };
        Ok(VideoDataHeader { frame_type, codec_id })
    }
}

} // verus!
