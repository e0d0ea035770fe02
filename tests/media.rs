use flv_reader::{
    AudioDataHeader, CodecId, FlvError, SoundFormat, SoundRate, SoundSize, SoundType,
    VideoDataHeader, VideoFrameType,
};

#[test]
fn audio_aac_44khz_16bit_stereo() {
    let h = AudioDataHeader::try_from(0xAF).unwrap();
    assert_eq!(
        h,
        AudioDataHeader {
            sound_format: SoundFormat::AAC,
            sound_rate: SoundRate::R44kHz,
            sound_size: SoundSize::S16Bit,
            sound_type: SoundType::Stereo,
        }
    );
}

#[test]
fn audio_format_twelve_is_invalid() {
    assert_eq!(AudioDataHeader::try_from(0xC3), Err(FlvError::InvalidSoundFormat(12)));
    assert_eq!(AudioDataHeader::try_from(0xC0), Err(FlvError::InvalidSoundFormat(12)));
}

#[test]
fn audio_format_thirteen_is_invalid() {
    assert_eq!(SoundFormat::try_from(0xD7), Err(FlvError::InvalidSoundFormat(13)));
}

#[test]
fn sound_format_every_valid_nibble() {
    let expected = [
        (0x0, SoundFormat::LinearPCMPlatformEndian),
        (0x1, SoundFormat::ADPCM),
        (0x2, SoundFormat::MP3),
        (0x3, SoundFormat::LinearPCMLittleEndian),
        (0x4, SoundFormat::Nellymoser16),
        (0x5, SoundFormat::Nellymoser8),
        (0x6, SoundFormat::Nellymoser),
        (0x7, SoundFormat::G711ALaw),
        (0x8, SoundFormat::G711MuLaw),
        (0x9, SoundFormat::Reserved),
        (0xA, SoundFormat::AAC),
        (0xB, SoundFormat::Speex),
        (0xE, SoundFormat::MP38kHz),
        (0xF, SoundFormat::DeviceSpecific),
    ];
    for (nibble, format) in expected {
        assert_eq!(SoundFormat::try_from((nibble << 4) | 0x0F), Ok(format));
    }
}

#[test]
fn sound_rate_size_type_fields() {
    assert_eq!(SoundRate::try_from(0x00), Ok(SoundRate::R5p5kHz));
    assert_eq!(SoundRate::try_from(0x04), Ok(SoundRate::R11kHz));
    assert_eq!(SoundRate::try_from(0x08), Ok(SoundRate::R22kHz));
    assert_eq!(SoundRate::try_from(0xFC), Ok(SoundRate::R44kHz));
    assert_eq!(SoundSize::try_from(0xFD), Ok(SoundSize::S8Bit));
    assert_eq!(SoundSize::try_from(0x02), Ok(SoundSize::S16Bit));
    assert_eq!(SoundType::try_from(0xFE), Ok(SoundType::Mono));
    assert_eq!(SoundType::try_from(0x01), Ok(SoundType::Stereo));
}

#[test]
fn audio_fields_are_independent() {
    let h = AudioDataHeader::try_from(0x22).unwrap();
    assert_eq!(h.sound_format, SoundFormat::MP3);
    assert_eq!(h.sound_rate, SoundRate::R5p5kHz);
    assert_eq!(h.sound_size, SoundSize::S16Bit);
    assert_eq!(h.sound_type, SoundType::Mono);
}

#[test]
fn video_key_frame_avc() {
    assert_eq!(
        VideoDataHeader::try_from(0x17),
        Ok(VideoDataHeader { frame_type: VideoFrameType::KeyFrame, codec_id: CodecId::AVC })
    );
}

#[test]
fn video_frame_types() {
    assert_eq!(VideoFrameType::try_from(0x27), Ok(VideoFrameType::InterFrame));
    assert_eq!(VideoFrameType::try_from(0x32), Ok(VideoFrameType::DisposableInterFrame));
    assert_eq!(VideoFrameType::try_from(0x44), Ok(VideoFrameType::GeneratedKeyFrame));
    assert_eq!(VideoFrameType::try_from(0x55), Ok(VideoFrameType::VideoInfoOrCommandFrame));
    assert_eq!(VideoFrameType::try_from(0x07), Err(FlvError::InvalidFrameType(0)));
    assert_eq!(VideoFrameType::try_from(0x67), Err(FlvError::InvalidFrameType(6)));
}

#[test]
fn video_codec_ids() {
    assert_eq!(CodecId::try_from(0x11), Ok(CodecId::JPEG));
    assert_eq!(CodecId::try_from(0x12), Ok(CodecId::SorensonH263));
    assert_eq!(CodecId::try_from(0x13), Ok(CodecId::ScreenVideo));
    assert_eq!(CodecId::try_from(0x14), Ok(CodecId::On2VP6));
    assert_eq!(CodecId::try_from(0x15), Ok(CodecId::On2VP6WithAlpha));
    assert_eq!(CodecId::try_from(0x16), Ok(CodecId::ScreenVideoVersion2));
    assert_eq!(CodecId::try_from(0x10), Err(FlvError::InvalidCodecId(0)));
    assert_eq!(CodecId::try_from(0x18), Err(FlvError::InvalidCodecId(8)));
}

#[test]
fn video_frame_type_error_comes_first() {
    assert_eq!(VideoDataHeader::try_from(0x0F), Err(FlvError::InvalidFrameType(0)));
    assert_eq!(VideoDataHeader::try_from(0x1F), Err(FlvError::InvalidCodecId(15)));
}
