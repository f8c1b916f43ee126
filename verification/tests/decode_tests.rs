use ndsrom::error::DecodeError;
use ndsrom::header::{extract_region, NDSHeader, HEADER_SIZE};
use ndsrom::icon::{decode_icon, NDSIcon, ICON_COMMON_SIZE, ICON_EXTENDED_SIZE};
use ndsrom::render::Rgba;
use ndsrom::strings::{BoundedString, BoundedUTF16String};

fn put_u16(buf: &mut Vec<u8>, off: usize, v: u16) {
    buf[off] = (v & 0xff) as u8;
    buf[off + 1] = (v >> 8) as u8;
}

fn put_u32(buf: &mut Vec<u8>, off: usize, v: u32) {
    buf[off] = (v & 0xff) as u8;
    buf[off + 1] = ((v >> 8) & 0xff) as u8;
    buf[off + 2] = ((v >> 16) & 0xff) as u8;
    buf[off + 3] = ((v >> 24) & 0xff) as u8;
}

fn sample_header_bytes() -> Vec<u8> {
    let mut buf = vec![0u8; HEADER_SIZE];
    let title = b"GAMETITLE\0\0\0";
    buf[..12].copy_from_slice(title);
    buf[12..16].copy_from_slice(b"ABCD");
    put_u16(&mut buf, 16, 0x3130); // makercode
    buf[18] = 2; // unitcode
    buf[19] = 0x7f; // encryption_seed
    buf[20] = 9; // device_capacity
    put_u16(&mut buf, 28, 0x0102); // gamerevision
    buf[30] = 3; // romversion
    buf[31] = 1; // autostart
    put_u32(&mut buf, 32, 0x4000); // arm9_offset
    put_u32(&mut buf, 36, 0x02000000); // arm9_entry
    put_u32(&mut buf, 40, 0x02000000); // arm9_load
    put_u32(&mut buf, 44, 0x100); // arm9_size
    put_u32(&mut buf, 48, 0x8000); // arm7_offset
    put_u32(&mut buf, 52, 0x02380000); // arm7_entry
    put_u32(&mut buf, 56, 0x02380000); // arm7_load
    put_u32(&mut buf, 60, 0x80); // arm7_size
    put_u32(&mut buf, 104, 0x9000); // icon_banner_offset
    put_u16(&mut buf, 348, 0xCF56); // logo_crc
    put_u16(&mut buf, 350, 0xABCD); // header_crc
    put_u32(&mut buf, 120, 0x11223344); // low half of secure_disable
    put_u32(&mut buf, 124, 0x55667788); // high half of secure_disable
    put_u32(&mut buf, 132, 0x4000); // header_size
    buf
}

#[test]
fn header_decode_reads_every_field() {
    let buf = sample_header_bytes();
    let h = NDSHeader::decode(&buf).expect("full header must decode");
    assert_eq!(h.title.str(), "GAMETITLE");
    assert_eq!(h.gamecode.str(), "ABCD");
    assert_eq!(h.makercode, 0x3130);
    assert_eq!(h.unitcode, 2);
    assert_eq!(h.encryption_seed, 0x7f);
    assert_eq!(h.device_capacity, 9);
    assert_eq!(h.gamerevision, 0x0102);
    assert_eq!(h.romversion, 3);
    assert_eq!(h.autostart, 1);
    assert_eq!(h.arm9_offset, 0x4000);
    assert_eq!(h.arm9_entry, 0x02000000);
    assert_eq!(h.arm9_load, 0x02000000);
    assert_eq!(h.arm9_size, 0x100);
    assert_eq!(h.arm7_offset, 0x8000);
    assert_eq!(h.arm7_entry, 0x02380000);
    assert_eq!(h.arm7_load, 0x02380000);
    assert_eq!(h.arm7_size, 0x80);
    assert_eq!(h.icon_banner_offset, 0x9000);
    assert_eq!(h.secure_disable, 0x55667788_11223344);
    assert_eq!(h.header_size, 0x4000);
    assert_eq!(h.logo_crc, 0xCF56);
    assert_eq!(h.header_crc, 0xABCD);
    assert_eq!(h.reserved_1, vec![0u8; 7]);
    assert_eq!(h.reserved_2, vec![0u8; 56]);
    assert_eq!(h.logo, vec![0u8; 156]);
    assert_eq!(h.debugger_reserved, vec![0u8; 32]);
}

#[test]
fn header_too_short_is_rejected() {
    for len in [0usize, 1, 12, 100, HEADER_SIZE - 1] {
        let buf = vec![0u8; len];
        let r = NDSHeader::decode(&buf);
        assert!(
            matches!(r, Err(DecodeError::UnexpectedEndOfData { .. })),
            "length {} must be rejected",
            len
        );
    }
}

#[test]
fn header_error_identifies_failing_read() {
    // 20 bytes: title (12) and gamecode (4) decode, the u16 at 16 decodes,
    // then the byte at offset 18 and 19 decode, and the read at 20 fails.
    let buf = vec![0u8; 20];
    match NDSHeader::decode(&buf) {
        Err(DecodeError::UnexpectedEndOfData { offset, requested_length }) => {
            assert_eq!(offset, 20);
            assert_eq!(requested_length, 1);
        }
        other => panic!("expected end-of-data, got {:?}", other.is_ok()),
    }
}

#[test]
fn header_field_reencoding_reproduces_bytes() {
    let buf = sample_header_bytes();
    let h = NDSHeader::decode(&buf).unwrap();
    assert_eq!(&h.makercode.to_le_bytes()[..], &buf[16..18]);
    assert_eq!(&h.gamerevision.to_le_bytes()[..], &buf[28..30]);
    assert_eq!(&h.arm9_offset.to_le_bytes()[..], &buf[32..36]);
    assert_eq!(&h.arm7_size.to_le_bytes()[..], &buf[60..64]);
    assert_eq!(&h.icon_banner_offset.to_le_bytes()[..], &buf[104..108]);
    assert_eq!(&h.secure_disable.to_le_bytes()[..], &buf[120..128]);
    assert_eq!(&h.logo_crc.to_le_bytes()[..], &buf[348..350]);
    assert_eq!(&h.header_crc.to_le_bytes()[..], &buf[350..352]);
    assert_eq!([h.unitcode], buf[18..19]);
    assert_eq!([h.romversion], buf[30..31]);
}

#[test]
fn regions_within_bounds_are_extracted() {
    let mut buf = sample_header_bytes();
    buf.resize(0x9000, 0);
    for i in 0..0x100usize {
        buf[0x4000 + i] = (i % 251) as u8;
    }
    let h = NDSHeader::decode(&buf).unwrap();
    let arm9 = h.arm9_region(&buf).expect("arm9 range lies inside the buffer");
    assert_eq!(arm9.len(), 0x100);
    assert_eq!(arm9[..], buf[0x4000..0x4100]);
    let arm7 = h.arm7_region(&buf).expect("arm7 range lies inside the buffer");
    assert_eq!(arm7[..], buf[0x8000..0x8080]);
}

#[test]
fn region_past_end_is_rejected() {
    let buf = sample_header_bytes(); // 384 bytes; arm9 range ends at 0x4100
    let h = NDSHeader::decode(&buf).unwrap();
    assert_eq!(h.arm9_region(&buf), Err(DecodeError::InvalidOffset));
    assert_eq!(h.arm7_region(&buf), Err(DecodeError::InvalidOffset));
    assert_eq!(extract_region(&buf, 384, 1), Err(DecodeError::InvalidOffset));
    assert_eq!(extract_region(&buf, 0, 385), Err(DecodeError::InvalidOffset));
    assert!(extract_region(&buf, 0, 384).is_ok());
}

fn icon_buffer(off: usize, version: u16, extended: bool) -> Vec<u8> {
    let total = off + if extended { ICON_EXTENDED_SIZE } else { ICON_COMMON_SIZE };
    let mut buf = vec![0u8; total];
    put_u16(&mut buf, off, version);
    buf
}

#[test]
fn icon_below_threshold_has_no_extended_block() {
    let off = 0x200;
    let buf = icon_buffer(off, 1, false);
    let icon = NDSIcon::decode(&buf, off).expect("common icon block must decode");
    assert_eq!(icon.version, 1);
    assert!(icon.dsi_icon.is_none());
    // An all-zero packed bitmap reconstructs to a fully transparent raster.
    let raster = icon.static_raster();
    assert_eq!(raster.len(), 1024);
    assert!(raster.iter().all(|p| *p == Rgba { r: 0, g: 0, b: 0, a: 0 }));

    let buf258 = icon_buffer(off, 258, false);
    let icon258 = NDSIcon::decode(&buf258, off).unwrap();
    assert!(icon258.dsi_icon.is_none());
}

#[test]
fn icon_at_threshold_has_extended_block() {
    let off = 0x40;
    let buf = icon_buffer(off, 259, true);
    let icon = NDSIcon::decode(&buf, off).expect("extended icon block must decode");
    assert_eq!(icon.version, 259);
    let dsi = icon.dsi_icon.expect("version 259 carries the extended block");
    assert_eq!(dsi.frames.len(), 8);
    assert_eq!(dsi.frame_palettes.len(), 8);
    assert_eq!(dsi.sequence.len(), 64);
}

#[test]
fn icon_truncated_is_rejected() {
    let off = 0x10;
    // Common block cut one byte short.
    let mut buf = icon_buffer(off, 1, false);
    buf.pop();
    assert!(matches!(
        NDSIcon::decode(&buf, off),
        Err(DecodeError::UnexpectedEndOfData { .. })
    ));
    // Version asks for the extended block but only the common block is there.
    let buf2 = icon_buffer(off, 259, false);
    assert!(matches!(
        NDSIcon::decode(&buf2, off),
        Err(DecodeError::UnexpectedEndOfData { .. })
    ));
}

#[test]
fn icon_offset_zero_is_invalid() {
    let mut buf = sample_header_bytes();
    put_u32(&mut buf, 104, 0);
    buf.resize(0x9000 + ICON_COMMON_SIZE, 0);
    let h = NDSHeader::decode(&buf).unwrap();
    assert!(matches!(decode_icon(&h, &buf), Err(DecodeError::InvalidOffset)));
}

#[test]
fn icon_offset_past_end_is_invalid() {
    let buf = sample_header_bytes(); // icon_banner_offset 0x9000, buffer 384 bytes
    let h = NDSHeader::decode(&buf).unwrap();
    assert!(matches!(decode_icon(&h, &buf), Err(DecodeError::InvalidOffset)));
}

#[test]
fn icon_located_by_header_decodes() {
    let mut buf = sample_header_bytes();
    buf.resize(0x9000 + ICON_COMMON_SIZE, 0);
    put_u16(&mut buf, 0x9000, 2);
    put_u16(&mut buf, 0x9000 + 2, 0xBEEF); // crc_1
    let h = NDSHeader::decode(&buf).unwrap();
    let icon = decode_icon(&h, &buf).expect("icon at the header-declared offset");
    assert_eq!(icon.version, 2);
    assert_eq!(icon.crc_1, 0xBEEF);
    assert!(icon.dsi_icon.is_none());
}

#[test]
fn bounded_string_strips_zero_padding() {
    let s = BoundedString::new(b"AB\0CD\0\0".to_vec());
    assert_eq!(s.str(), "ABCD");
    let empty = BoundedString::new(vec![0, 0, 0]);
    assert_eq!(empty.str(), "");
}

#[test]
fn bounded_string_is_lossy_on_invalid_bytes() {
    let s = BoundedString::new(vec![b'A', 0xFF, b'B']);
    assert_eq!(s.str(), "A\u{FFFD}B");
}

#[test]
fn bounded_utf16_strips_zero_code_units() {
    let mut units = vec![0u16; 128];
    units[0] = 'H' as u16;
    units[2] = 'i' as u16;
    let t = BoundedUTF16String::new(units);
    assert_eq!(t.str(), "Hi");
}

#[test]
fn bounded_utf16_is_lossy_on_unpaired_surrogate() {
    let t = BoundedUTF16String::new(vec![0xD800, 'x' as u16]);
    assert_eq!(t.str(), "\u{FFFD}x");
}

#[test]
fn icon_titles_decode_from_their_slots() {
    let off = 0usize;
    let mut buf = icon_buffer(off, 1, false);
    // The second title slot (English) starts 832 bytes into the record.
    let en = 832usize;
    for (i, c) in "HELLO".chars().enumerate() {
        put_u16(&mut buf, off + en + 2 * i, c as u16);
    }
    let icon = NDSIcon::decode(&buf, off).unwrap();
    assert_eq!(icon.title_en.str(), "HELLO");
    assert_eq!(icon.title_jp.str(), "");
}
