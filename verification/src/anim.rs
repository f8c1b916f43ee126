use vstd::prelude::*;
use crate::icon::DSIIcon;
use crate::render::{dump_icon_frame, raster_matches, Rgba};

verus! {

/// The decoded fields of one 16-bit animation-frame descriptor: bit 15 the
/// vertical flip, bit 14 the horizontal flip, bits 13-11 the palette-frame
/// index, bits 10-8 the bitmap-frame index, bits 7-0 the display duration in
/// 1/60-second ticks.
#[derive(Debug, Clone, Copy, PartialEq, Eq, Structural)]
pub struct IconAnimation {
    pub flip_vert: bool,
    pub flip_horiz: bool,
    pub palette: u8,
    pub bitmap: u8,
    pub duration: u8,
}

/// The field decomposition of one 16-bit sequence descriptor.
pub open spec fn anim_of(v: u16) -> IconAnimation {
    IconAnimation {
        flip_vert: v / 0x8000 % 2 == 1,
        flip_horiz: v / 0x4000 % 2 == 1,
        palette: (v / 0x800 % 8) as u8,
        bitmap: (v / 0x100 % 8) as u8,
        duration: (v % 0x100) as u8,
    }
}

impl IconAnimation {
    /// Splits one 16-bit sequence descriptor into its bit fields. Both
    /// 3-bit indices are below 8 by construction.
    pub fn decode(v: u16) -> (r: IconAnimation)
        ensures
            r == anim_of(v),
            r.palette < 8,
            r.bitmap < 8,
    {
        IconAnimation {
            flip_vert: v / 0x8000 % 2 == 1,
            flip_horiz: v / 0x4000 % 2 == 1,
            palette: (v / 0x800 % 8) as u8,
            bitmap: (v / 0x100 % 8) as u8,
            duration: (v % 0x100) as u8,
        }
    }
}

impl Default for IconAnimation {
    /// The identity transform: no flips, first palette and bitmap, zero
    /// duration.
    fn default() -> (r: IconAnimation)
        ensures
            r == (IconAnimation {
                flip_vert: false,
                flip_horiz: false,
                palette: 0,
                bitmap: 0,
                duration: 0,
            }),
    {
        IconAnimation { flip_vert: false, flip_horiz: false, palette: 0, bitmap: 0, duration: 0 }
    }
}

/// One reconstructed animation frame: a 32x32 row-major RGBA raster and its
/// display duration in 1/60-second ticks.
pub struct RenderedFrame {
    pub pixels: Vec<Rgba>,
    pub duration: u8,
}

/// The position of the first zero entry of `s` at or after `i` (the length
/// of `s` when no entry from `i` on is zero).
pub open spec fn first_zero_from(s: Seq<u16>, i: int) -> int
    decreases s.len() - i,
{
    if i < 0 || i >= s.len() {
        i
    } else if s[i] == 0 {
        i
    } else {
        first_zero_from(s, i + 1)
    }
}

/// How many frames the sequence table `s` yields: its entries up to but not
/// including the first zero sentinel, or all of them when none is zero.
pub open spec fn frame_count(s: Seq<u16>) -> int {
    first_zero_from(s, 0)
}

/// Scanning for the first zero from the start and from `i` agree while every
/// entry before `i` is nonzero.
proof fn lemma_first_zero_prefix(s: Seq<u16>, i: int)
    requires
        0 <= i <= s.len(),
        forall|j: int| 0 <= j < i ==> s[j] != 0,
    ensures
        first_zero_from(s, 0) == first_zero_from(s, i),
    decreases i,
{
    if i > 0 {
        lemma_first_zero_prefix(s, i - 1);
    }
}

/// `f` is the frame that descriptor `e` selects from `dsi`: the duration is
/// the descriptor's low byte, and the raster is the reconstruction of the
/// selected bitmap frame under the selected palette with the descriptor's
/// flips applied.
pub open spec fn frame_matches(f: RenderedFrame, dsi: DSIIcon, e: u16) -> bool {
    let a = anim_of(e);
    &&& f.duration == a.duration
    &&& raster_matches(
        f.pixels@,
        dsi.frames@[a.bitmap as int].data@,
        dsi.frame_palettes@[a.palette as int].colors@,
        a.flip_horiz,
        a.flip_vert,
    )
}

/// Renders the animated-icon sequence of an extended icon block: walks the
/// 64-entry sequence table in order, stops at the first zero descriptor
/// (ignoring everything after it), and reconstructs one frame per entry
/// before it. This never fails: every 3-bit index selects one of the 8
/// frames or palettes.
pub fn animation_frames(dsi: &DSIIcon) -> (r: Vec<RenderedFrame>)
    requires
        dsi.wf(),
    ensures
        r@.len() == frame_count(dsi.sequence@),
        forall|i: int| 0 <= i < r@.len() ==> frame_matches(#[trigger] r@[i], *dsi, dsi.sequence@[i]),
{
    let mut out: Vec<RenderedFrame> = Vec::new();
    let mut i: usize = 0;
    while i < 64
        invariant
            dsi.wf(),
            i <= 64,
            out@.len() == i,
            forall|j: int| 0 <= j < i ==> dsi.sequence@[j] != 0,
            forall|j: int|
                0 <= j < i ==> frame_matches(#[trigger] out@[j], *dsi, dsi.sequence@[j]),
        decreases 64 - i,
    {
        let e = dsi.sequence[i];
        if e == 0 {
            proof {
                lemma_first_zero_prefix(dsi.sequence@, i as int);
            }
            return out;
        }
        let a = IconAnimation::decode(e);
        let frame = &dsi.frames[a.bitmap as usize];
        let pal = &dsi.frame_palettes[a.palette as usize];
        let pixels = dump_icon_frame(&frame.data, pal, a);
        out.push(RenderedFrame { pixels, duration: a.duration });
        i = i + 1;
    }
    proof {
        lemma_first_zero_prefix(dsi.sequence@, 64);
    }
    out
}

} // verus!
