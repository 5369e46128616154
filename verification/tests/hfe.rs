use thatsit::hfe::{
    Header, HfeError, InterfaceMode, StepMode, TrackBlock, TrackEncoding, TrackInfo, UseAltEncoding,
};

fn header_bytes() -> Vec<u8> {
    let mut b = b"HXCPICFE".to_vec();
    b.extend_from_slice(&[0, 80, 2, 0x00, 0xFA, 0x00, 0x2C, 0x01, 0x0C, 0, 1, 0xFF, 0xFF, 0x00, 0x01, 0xFF, 0xFF]);
    b
}

#[test]
fn a_header_is_read_field_by_field() {
    let h = Header::read(&header_bytes()).unwrap();
    assert_eq!(h.format_revision, 0);
    assert_eq!(h.tracks, 80);
    assert_eq!(h.sides, 2);
    assert_eq!(h.encoding, TrackEncoding::ISOIBMMFM);
    assert_eq!(h.bitrate, 250);
    assert_eq!(h.rpm, 300);
    assert_eq!(h.mode, InterfaceMode::S950DD);
    assert_eq!(h.track_list_offset, 1);
    assert_eq!(h.writable, 0xFF);
    assert_eq!(h.step, StepMode::Single);
    assert_eq!(h.track0_s0_altencoding, UseAltEncoding::Yes);
    assert_eq!(h.track0_s0_encoding, TrackEncoding::AmigaMFM);
    assert_eq!(h.track0_s1_altencoding, UseAltEncoding::No);
    assert_eq!(h.track0_s1_encoding, TrackEncoding::Unknown);
    let mut longer = header_bytes();
    longer.extend_from_slice(&[1, 2, 3]);
    assert_eq!(Header::read(&longer), Ok(h));
}

#[test]
fn a_header_that_cannot_be_read_says_why() {
    let b = header_bytes();
    assert_eq!(Header::read(&b[..5]), Err(HfeError::TooShort));
    assert_eq!(Header::read(&b[..24]), Err(HfeError::TooShort));
    let mut wrong = b.clone();
    wrong[0] = b'X';
    assert_eq!(Header::read(&wrong), Err(HfeError::BadMagic));
    assert_eq!(Header::read(&wrong[..9]), Err(HfeError::BadMagic));
    let mut wrong = b.clone();
    wrong[16] = 0x42;
    assert_eq!(Header::read(&wrong), Err(HfeError::NoVariantMatch(16)));
    assert_eq!(Header::read(&wrong[..17]), Err(HfeError::NoVariantMatch(16)));
    let mut wrong = b.clone();
    wrong[11] = 7;
    wrong[20] = 7;
    assert_eq!(Header::read(&wrong), Err(HfeError::NoVariantMatch(11)));
}

#[test]
fn track_entries_and_blocks_are_read() {
    assert_eq!(TrackInfo::read(&[0x02, 0x00, 0x00, 0x31]), Ok(TrackInfo { offset: 2, length: 0x3100 }));
    assert_eq!(TrackInfo::read(&[0x02, 0x00, 0x00]), Err(HfeError::TooShort));
    let bytes: Vec<u8> = (0..1100u32).map(|i| (i % 251) as u8).collect();
    let block = TrackBlock::read(&bytes).unwrap();
    assert_eq!(block.side_0, bytes[..512].to_vec());
    assert_eq!(block.side_1, bytes[512..1024].to_vec());
    assert_eq!(TrackBlock::read(&bytes[..1023]), Err(HfeError::TooShort));
}

#[test]
fn bytes_name_their_values() {
    assert_eq!(InterfaceMode::from_byte(0xFE), Some(InterfaceMode::Disable));
    assert_eq!(InterfaceMode::from_byte(0x0E), None);
    assert_eq!(TrackEncoding::from_byte(0x03), Some(TrackEncoding::EmuFM));
    assert_eq!(StepMode::from_byte(0x00), Some(StepMode::Double));
    assert_eq!(UseAltEncoding::from_byte(0x01), None);
}
