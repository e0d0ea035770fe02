use flv_reader::{parse_header, FlvError, Header};

#[test]
fn header_fields_recovered() {
    let bytes = [b'F', b'L', b'V', 1, 5, 0x12, 0x34, 0x56, 0x78];
    assert_eq!(parse_header(&bytes), Ok(Header { version: 1, type_: 5, offset: 0x1234_5678 }));
}

#[test]
fn header_conventional_offset_nine() {
    let bytes = [b'F', b'L', b'V', 1, 1, 0, 0, 0, 9, 0xAA];
    assert_eq!(parse_header(&bytes), Ok(Header { version: 1, type_: 1, offset: 9 }));
}

#[test]
fn header_every_offset_byte_round_trips() {
    for offset in [0u32, 1, 255, 256, 65_536, 0x00FF_FF00, u32::MAX] {
        let o = offset.to_be_bytes();
        let bytes = [b'F', b'L', b'V', 3, 4, o[0], o[1], o[2], o[3]];
        assert_eq!(parse_header(&bytes), Ok(Header { version: 3, type_: 4, offset }));
    }
}

#[test]
fn header_bad_signature() {
    let bytes = [b'F', b'L', b'X', 1, 5, 0, 0, 0, 9];
    assert_eq!(parse_header(&bytes), Err(FlvError::MalformedSignature));
    let bytes = [b'f', b'l', b'v', 1, 5, 0, 0, 0, 9];
    assert_eq!(parse_header(&bytes), Err(FlvError::MalformedSignature));
}

#[test]
fn header_truncated() {
    assert_eq!(parse_header(&[]), Err(FlvError::TruncatedHeader));
    assert_eq!(parse_header(b"FLV\x01\x05\x00\x00\x00"), Err(FlvError::TruncatedHeader));
}
