use vstd::prelude::*;
use vstd::arithmetic::div_mod::{lemma_div_is_ordered, lemma_fundamental_div_mod_converse};
use crate::anim::IconAnimation;
use crate::icon::NDSIconPalette;

verus! {

/// One pixel of a reconstructed raster, fully opaque or fully transparent.
#[derive(Debug, Clone, Copy, PartialEq, Eq, Structural)]
pub struct Rgba {
    pub r: u8,
    pub g: u8,
    pub b: u8,
    pub a: u8,
}

/// The 8-bit channel value for the 5-bit channel `c`: `c / 31 * 255` rounded
/// to the nearest integer, saturated at 255 for out-of-range input.
pub open spec fn conv_spec(c: u16) -> u8 {
    if c > 31 {
        255
    } else {
        ((c * 255 + 15) / 31) as u8
    }
}

/// 5-bit color channel to 8-bit color channel.
pub fn conv(single_channel: u16) -> (r: u8)
    ensures
        r == conv_spec(single_channel),
{
    if single_channel > 31 {
        255
    } else {
        ((single_channel * 255 + 15) / 31) as u8
    }
}

/// Law: channel conversion maps 0 to 0 and 31 to 255, and is non-decreasing
/// over the whole 5-bit channel range.
pub proof fn lemma_conv_monotonic(a: u16, b: u16)
    requires
        a <= b,
    ensures
        conv_spec(0) == 0,
        conv_spec(31) == 255,
        conv_spec(a) <= conv_spec(b),
{
    if b <= 31 {
        lemma_div_is_ordered(a * 255 + 15, b * 255 + 15, 31);
    } else if a <= 31 {
        lemma_div_is_ordered(a * 255 + 15, 7920int, 31);
    }
}

/// The palette index carried by stream pixel `p` of a packed 4bpp bitmap:
/// each byte holds two indices, low nibble first.
pub open spec fn nibble_at(bitmap: Seq<u8>, p: int) -> u8 {
    if p % 2 == 0 {
        (bitmap[p / 2] % 16) as u8
    } else {
        (bitmap[p / 2] / 16) as u8
    }
}

/// The stream position that feeds pixel (x, y) of the 32x32 raster: pixels
/// run in raster order within each 8x8 tile, tiles in row-major order across
/// the 4x4 tile grid.
pub open spec fn stream_index(x: int, y: int) -> int {
    ((y / 8) * 4 + x / 8) * 64 + (y % 8) * 8 + x % 8
}

/// The color a 16-entry palette yields for index `idx`: index 0 is always
/// fully transparent; any other index expands the entry's packed 5-bit
/// channels (blue, green, red ascending from bit 0) with full opacity.
pub open spec fn color_spec(colors: Seq<u16>, idx: u8) -> Rgba {
    if idx == 0 {
        Rgba { r: 0, g: 0, b: 0, a: 0 }
    } else {
        let c = colors[idx as int];
        Rgba {
            r: conv_spec((c / 1024 % 32) as u16),
            g: conv_spec((c / 32 % 32) as u16),
            b: conv_spec((c % 32) as u16),
            a: 255,
        }
    }
}

/// Pixel (x, y) of the unflipped 32x32 reconstruction of a packed 4bpp
/// bitmap under a 16-color palette.
pub open spec fn rendered_pixel(bitmap: Seq<u8>, colors: Seq<u16>, x: int, y: int) -> Rgba {
    color_spec(colors, nibble_at(bitmap, stream_index(x, y)))
}

/// `pix` is the 32x32 raster (row-major, entry `y * 32 + x` is pixel (x, y))
/// reconstructed from `bitmap` and `colors`, with each destination coordinate
/// mirrored per axis when the matching flip flag is set.
pub open spec fn raster_matches(
    pix: Seq<Rgba>,
    bitmap: Seq<u8>,
    colors: Seq<u16>,
    flip_horiz: bool,
    flip_vert: bool,
) -> bool {
    &&& pix.len() == 1024
    &&& forall|i: int|
        0 <= i < 1024 ==> #[trigger] pix[i] == rendered_pixel(
            bitmap,
            colors,
            if flip_horiz { 31 - i % 32 } else { i % 32 },
            if flip_vert { 31 - i / 32 } else { i / 32 },
        )
}

/// Law: a flipped reconstruction holds exactly the pixels of the unflipped
/// one, each moved to its per-axis mirrored destination: the flipped raster
/// at the mirrored coordinates equals the plain raster at (x, y).
pub proof fn lemma_flip_mirrors_raster(
    plain: Seq<Rgba>,
    flipped: Seq<Rgba>,
    bitmap: Seq<u8>,
    colors: Seq<u16>,
    flip_horiz: bool,
    flip_vert: bool,
    x: int,
    y: int,
)
    requires
        raster_matches(plain, bitmap, colors, false, false),
        raster_matches(flipped, bitmap, colors, flip_horiz, flip_vert),
        0 <= x < 32,
        0 <= y < 32,
    ensures
        flipped[(if flip_vert { 31 - y } else { y }) * 32 + (if flip_horiz { 31 - x } else { x })]
            == plain[y * 32 + x],
{
    let dx = if flip_horiz { 31 - x } else { x };
    let dy = if flip_vert { 31 - y } else { y };
    lemma_fundamental_div_mod_converse(dy * 32 + dx, 32, dy, dx);
    lemma_fundamental_div_mod_converse(y * 32 + x, 32, y, x);
    assert(flipped[dy * 32 + dx] == rendered_pixel(bitmap, colors, x, y));
    assert(plain[y * 32 + x] == rendered_pixel(bitmap, colors, x, y));
}

/// Reconstructs one 32x32 RGBA raster from a 512-byte packed 4bpp bitmap and
/// a 16-color palette, mirroring the destination per `anim`'s flip flags.
/// This never fails: every 4-bit index selects a valid palette entry.
#[verifier::rlimit(50)]
pub fn dump_icon_frame(bitmap: &Vec<u8>, palette: &NDSIconPalette, anim: IconAnimation) -> (r: Vec<
    Rgba,
>)
    requires
        bitmap@.len() == 512,
        palette.colors@.len() == 16,
    ensures
        raster_matches(r@, bitmap@, palette.colors@, anim.flip_horiz, anim.flip_vert),
{
    let mut pix: Vec<Rgba> = Vec::new();
    let mut i: usize = 0;
    while i < 1024
        invariant
            i <= 1024,
            bitmap@.len() == 512,
            palette.colors@.len() == 16,
            pix@.len() == i,
            forall|j: int|
                0 <= j < i ==> #[trigger] pix@[j] == rendered_pixel(
                    bitmap@,
                    palette.colors@,
                    if anim.flip_horiz { 31 - j % 32 } else { j % 32 },
                    if anim.flip_vert { 31 - j / 32 } else { j / 32 },
                ),
        decreases 1024 - i,
    {
        let x = i % 32;
        let y = i / 32;
        let sx = if anim.flip_horiz { 31 - x } else { x };
        let sy = if anim.flip_vert { 31 - y } else { y };
        let p = ((sy / 8) * 4 + sx / 8) * 64 + (sy % 8) * 8 + sx % 8;
        let byte = bitmap[p / 2];
        let idx = if p % 2 == 0 { byte % 16 } else { byte / 16 };
        let px = if idx == 0 {
            Rgba { r: 0, g: 0, b: 0, a: 0 }
        } else {
            let c = palette.colors[idx as usize];
            Rgba { r: conv(c / 1024 % 32), g: conv(c / 32 % 32), b: conv(c % 32), a: 255 }
        };
        pix.push(px);
        i = i + 1;
    }
    pix
}

} // verus!
