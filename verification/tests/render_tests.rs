use ndsrom::anim::{animation_frames, IconAnimation};
use ndsrom::icon::{DSIIcon, DSIIconFrame, NDSIcon, NDSIconPalette, ICON_COMMON_SIZE};
use ndsrom::render::{conv, dump_icon_frame, Rgba};

fn no_transform() -> IconAnimation {
    IconAnimation { flip_vert: false, flip_horiz: false, palette: 0, bitmap: 0, duration: 0 }
}

fn solid_palette() -> NDSIconPalette {
    // Entry 1 holds full-intensity channels; the rest stay zero.
    let mut colors = vec![0u16; 16];
    colors[1] = 0x7FFF;
    NDSIconPalette { colors }
}

/// A bitmap whose stream pixel `p` has index `p % 16`, so every tile cycles
/// through the whole palette.
fn cycling_bitmap() -> Vec<u8> {
    let mut data = vec![0u8; 512];
    for (i, b) in data.iter_mut().enumerate() {
        let low = (2 * i % 16) as u8;
        let high = ((2 * i + 1) % 16) as u8;
        *b = low | (high << 4);
    }
    data
}

#[test]
fn conv_maps_channel_endpoints() {
    assert_eq!(conv(0), 0);
    assert_eq!(conv(31), 255);
    assert_eq!(conv(15), 123); // round(15 / 31 * 255)
    assert_eq!(conv(16), 132); // round(16 / 31 * 255)
    assert_eq!(conv(32), 255); // saturates past the 5-bit range
    assert_eq!(conv(0xFFFF), 255);
}

#[test]
fn conv_is_monotonic_over_the_channel_range() {
    for c in 0u16..31 {
        assert!(conv(c) <= conv(c + 1), "conv must not decrease at {}", c);
    }
}

#[test]
fn zero_bitmap_renders_fully_transparent() {
    let bitmap = vec![0u8; 512];
    let raster = dump_icon_frame(&bitmap, &solid_palette(), no_transform());
    assert_eq!(raster.len(), 1024);
    for px in &raster {
        assert_eq!(*px, Rgba { r: 0, g: 0, b: 0, a: 0 });
    }
}

#[test]
fn index_zero_is_transparent_and_zero_color_is_opaque_black() {
    // Stream pixel 0 has index 0, stream pixel 1 has index 1; the palette
    // entry for index 1 is 0x0000.
    let mut bitmap = vec![0u8; 512];
    bitmap[0] = 0x10;
    let palette = NDSIconPalette { colors: vec![0u16; 16] };
    let raster = dump_icon_frame(&bitmap, &palette, no_transform());
    assert_eq!(raster[0], Rgba { r: 0, g: 0, b: 0, a: 0 });
    assert_eq!(raster[1], Rgba { r: 0, g: 0, b: 0, a: 255 });
}

#[test]
fn palette_channels_unpack_blue_green_red_from_bit_zero() {
    // Stream pixel 0 selects entry 1: blue 31, green 0, red 3.
    let mut bitmap = vec![0u8; 512];
    bitmap[0] = 0x01;
    let mut colors = vec![0u16; 16];
    colors[1] = (3 << 10) | (0 << 5) | 31;
    let raster = dump_icon_frame(&bitmap, &NDSIconPalette { colors }, no_transform());
    assert_eq!(raster[0], Rgba { r: conv(3), g: 0, b: 255, a: 255 });
}

#[test]
fn tiles_are_laid_out_row_major() {
    // Put index 1 only in the first stream pixel of the second tile; that
    // tile covers columns 8..16 of rows 0..8, so the pixel lands at (8, 0).
    let mut bitmap = vec![0u8; 512];
    bitmap[32] = 0x01; // stream pixel 64 = first pixel of tile 1
    let raster = dump_icon_frame(&bitmap, &solid_palette(), no_transform());
    for y in 0..32usize {
        for x in 0..32usize {
            let expected = if x == 8 && y == 0 { 255 } else { 0 };
            assert_eq!(raster[y * 32 + x].a, expected, "pixel ({}, {})", x, y);
        }
    }
}

#[test]
fn flips_mirror_the_destination_coordinates() {
    let bitmap = cycling_bitmap();
    let palette = solid_palette();
    let plain = dump_icon_frame(&bitmap, &palette, no_transform());
    let mut anim = no_transform();
    anim.flip_horiz = true;
    let horiz = dump_icon_frame(&bitmap, &palette, anim);
    let mut anim = no_transform();
    anim.flip_vert = true;
    let vert = dump_icon_frame(&bitmap, &palette, anim);
    for y in 0..32usize {
        for x in 0..32usize {
            assert_eq!(horiz[y * 32 + (31 - x)], plain[y * 32 + x]);
            assert_eq!(vert[(31 - y) * 32 + x], plain[y * 32 + x]);
        }
    }
}

#[test]
fn descriptor_bit_fields_decode() {
    let a = IconAnimation::decode(0b1_0_000_000_00111100);
    assert!(a.flip_vert);
    assert!(!a.flip_horiz);
    assert_eq!(a.palette, 0);
    assert_eq!(a.bitmap, 0);
    assert_eq!(a.duration, 60);

    let b = IconAnimation::decode(0b0_1_011_010_00000101);
    assert!(!b.flip_vert);
    assert!(b.flip_horiz);
    assert_eq!(b.palette, 3);
    assert_eq!(b.bitmap, 2);
    assert_eq!(b.duration, 5);
}

fn sample_dsi(sequence: Vec<u16>) -> DSIIcon {
    let mut frames = Vec::new();
    let mut frame_palettes = Vec::new();
    for k in 0..8u8 {
        let mut data = cycling_bitmap();
        data[0] = k | (k << 4); // make each frame distinguishable
        frames.push(DSIIconFrame { data });
        let mut colors = vec![0u16; 16];
        colors[1] = 0x1F + (k as u16) * 32;
        frame_palettes.push(NDSIconPalette { colors });
    }
    DSIIcon { frames, frame_palettes, sequence }
}

#[test]
fn zero_first_descriptor_emits_no_frames() {
    let dsi = sample_dsi(vec![0u16; 64]);
    let frames = animation_frames(&dsi);
    assert_eq!(frames.len(), 0);
}

#[test]
fn zero_descriptor_terminates_even_with_entries_after_it() {
    let mut seq = vec![0u16; 64];
    seq[0] = 0x0001;
    seq[1] = 0x0002;
    // seq[2] stays 0; later entries must be ignored.
    seq[3] = 0x003C;
    let dsi = sample_dsi(seq);
    let frames = animation_frames(&dsi);
    assert_eq!(frames.len(), 2);
    assert_eq!(frames[0].duration, 1);
    assert_eq!(frames[1].duration, 2);
}

#[test]
fn all_nonzero_descriptors_emit_all_sixty_four_frames() {
    let dsi = sample_dsi(vec![0x0001u16; 64]);
    let frames = animation_frames(&dsi);
    assert_eq!(frames.len(), 64);
}

#[test]
fn vertical_flip_frame_mirrors_the_plain_reconstruction() {
    let mut seq = vec![0u16; 64];
    seq[0] = 0b1_0_000_000_00111100; // vertical flip, frame 0, palette 0, 60 ticks
    let dsi = sample_dsi(seq);
    let frames = animation_frames(&dsi);
    assert_eq!(frames.len(), 1);
    assert_eq!(frames[0].duration, 60);
    let plain = dump_icon_frame(&dsi.frames[0].data, &dsi.frame_palettes[0], no_transform());
    for y in 0..32usize {
        for x in 0..32usize {
            assert_eq!(
                frames[0].pixels[(31 - y) * 32 + x],
                plain[y * 32 + x],
                "pixel ({}, {})",
                x,
                y
            );
        }
    }
}

#[test]
fn descriptor_selects_frame_and_palette() {
    let mut seq = vec![0u16; 64];
    seq[0] = (3 << 11) | (2 << 8) | 7; // palette 3, bitmap 2, duration 7
    let dsi = sample_dsi(seq);
    let frames = animation_frames(&dsi);
    assert_eq!(frames.len(), 1);
    assert_eq!(frames[0].duration, 7);
    let expected = dump_icon_frame(&dsi.frames[2].data, &dsi.frame_palettes[3], no_transform());
    assert_eq!(frames[0].pixels, expected);
}

#[test]
fn static_raster_uses_the_legacy_bitmap_and_palette() {
    let off = 0usize;
    let mut buf = vec![0u8; ICON_COMMON_SIZE];
    put_u16(&mut buf, 0, 1);
    // Legacy bitmap: stream pixel 0 selects entry 1.
    buf[32] = 0x01;
    // Legacy palette entry 1: full blue.
    put_u16(&mut buf, 544 + 2, 0x001F);
    let icon = NDSIcon::decode(&buf, off).unwrap();
    let raster = icon.static_raster();
    assert_eq!(raster[0], Rgba { r: 0, g: 0, b: 255, a: 255 });
    assert_eq!(raster[1], Rgba { r: 0, g: 0, b: 0, a: 0 });
}

fn put_u16(buf: &mut Vec<u8>, off: usize, v: u16) {
    buf[off] = (v & 0xff) as u8;
    buf[off + 1] = (v >> 8) as u8;
}
