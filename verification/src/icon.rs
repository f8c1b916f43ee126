use vstd::prelude::*;
use crate::anim::IconAnimation;
use crate::error::DecodeError;
use crate::header::NDSHeader;
use crate::reader::{le16, read_bytes, read_u16, read_u16s};
use crate::render::{dump_icon_frame, raster_matches, Rgba};
use crate::strings::BoundedUTF16String;

verus! {

/// Byte length of the icon/banner record without the extended block.
pub const ICON_COMMON_SIZE: usize = 4672;

/// Byte length of the icon/banner record with the extended block.
pub const ICON_EXTENDED_SIZE: usize = 9152;

/// The `version` threshold at and above which the extended block is present.
pub const ICON_EXTENDED_VERSION: u16 = 259;

/// One 16-entry palette of packed 5-bit-per-channel colors.
pub struct NDSIconPalette {
    pub colors: Vec<u16>,
}

impl NDSIconPalette {
    /// The palette holds exactly 16 entries.
    pub open spec fn wf(&self) -> bool {
        self.colors@.len() == 16
    }
}

/// One 512-byte packed 4bpp bitmap frame of the extended animated icon.
pub struct DSIIconFrame {
    pub data: Vec<u8>,
}

impl DSIIconFrame {
    /// The frame holds exactly 512 bytes.
    pub open spec fn wf(&self) -> bool {
        self.data@.len() == 512
    }
}

/// The extended animated-icon block: 8 bitmap frames, 8 palettes, and a
/// 64-entry animation sequence table.
pub struct DSIIcon {
    pub frames: Vec<DSIIconFrame>,
    pub frame_palettes: Vec<NDSIconPalette>,
    pub sequence: Vec<u16>,
}

impl DSIIcon {
    /// Exactly 8 well-formed frames, 8 well-formed palettes, and 64
    /// sequence entries.
    pub open spec fn wf(&self) -> bool {
        &&& self.frames@.len() == 8
        &&& forall|k: int| 0 <= k < 8 ==> (#[trigger] self.frames@[k]).wf()
        &&& self.frame_palettes@.len() == 8
        &&& forall|k: int| 0 <= k < 8 ==> (#[trigger] self.frame_palettes@[k]).wf()
        &&& self.sequence@.len() == 64
    }
}

/// The version-tagged icon/banner record: the fields that are always present,
/// and the extended block exactly when `version` reaches the threshold.
pub struct NDSIcon {
    pub version: u16,
    pub crc_1: u16,
    pub crc_2: u16,
    pub crc_3: u16,
    pub crc_4: u16,
    pub reserved: Vec<u8>,
    pub bitmap: Vec<u8>,
    pub palette: NDSIconPalette,
    pub title_jp: BoundedUTF16String,
    pub title_en: BoundedUTF16String,
    pub title_fr: BoundedUTF16String,
    pub title_de: BoundedUTF16String,
    pub title_it: BoundedUTF16String,
    pub title_es: BoundedUTF16String,
    pub title_zh: BoundedUTF16String,
    pub title_kr: BoundedUTF16String,
    pub zerofilled: Vec<u8>,
    pub dsi_icon: Option<DSIIcon>,
}

/// `p` holds exactly the 16 little-endian palette entries stored at `o`.
pub open spec fn palette_matches(p: NDSIconPalette, b: Seq<u8>, o: int) -> bool {
    &&& p.colors@.len() == 16
    &&& forall|j: int| 0 <= j < 16 ==> #[trigger] p.colors@[j] == le16(b, o + 2 * j)
}

/// `t` holds exactly the 128 little-endian code units stored at `o`.
pub open spec fn title_matches(t: BoundedUTF16String, b: Seq<u8>, o: int) -> bool {
    &&& t.units().len() == 128
    &&& forall|j: int| 0 <= j < 128 ==> #[trigger] t.units()[j] == le16(b, o + 2 * j)
}

/// The unconditional fields of `icon` hold exactly the values stored at their
/// documented positions in the record starting at `off`.
pub open spec fn common_matches(icon: NDSIcon, b: Seq<u8>, off: int) -> bool {
    &&& icon.version == le16(b, off)
    &&& icon.crc_1 == le16(b, off + 2)
    &&& icon.crc_2 == le16(b, off + 4)
    &&& icon.crc_3 == le16(b, off + 6)
    &&& icon.crc_4 == le16(b, off + 8)
    &&& icon.reserved@ == b.subrange(off + 10, off + 32)
    &&& icon.bitmap@ == b.subrange(off + 32, off + 544)
    &&& palette_matches(icon.palette, b, off + 544)
    &&& title_matches(icon.title_jp, b, off + 576)
    &&& title_matches(icon.title_en, b, off + 832)
    &&& title_matches(icon.title_fr, b, off + 1088)
    &&& title_matches(icon.title_de, b, off + 1344)
    &&& title_matches(icon.title_it, b, off + 1600)
    &&& title_matches(icon.title_es, b, off + 1856)
    &&& title_matches(icon.title_zh, b, off + 2112)
    &&& title_matches(icon.title_kr, b, off + 2368)
    &&& icon.zerofilled@ == b.subrange(off + 2624, off + 4672)
}

/// The extended block `d` holds exactly the frames, palettes and sequence
/// table stored after the common fields of the record starting at `off`.
pub open spec fn dsi_matches(d: DSIIcon, b: Seq<u8>, off: int) -> bool {
    &&& d.frames@.len() == 8
    &&& forall|k: int|
        0 <= k < 8 ==> (#[trigger] d.frames@[k]).data@ == b.subrange(
            off + 4672 + 512 * k,
            off + 4672 + 512 * k + 512,
        )
    &&& d.frame_palettes@.len() == 8
    &&& forall|k: int|
        0 <= k < 8 ==> palette_matches(#[trigger] d.frame_palettes@[k], b, off + 8768 + 32 * k)
    &&& d.sequence@.len() == 64
    &&& forall|j: int| 0 <= j < 64 ==> #[trigger] d.sequence@[j] == le16(b, off + 9024 + 2 * j)
}

/// `icon` is exactly the record stored at `off`: the common fields always,
/// and the extended block if and only if the stored version reaches the
/// threshold.
pub open spec fn icon_matches(icon: NDSIcon, b: Seq<u8>, off: int) -> bool {
    &&& common_matches(icon, b, off)
    &&& match icon.dsi_icon {
        Some(d) => icon.version >= ICON_EXTENDED_VERSION && dsi_matches(d, b, off),
        None => icon.version < ICON_EXTENDED_VERSION,
    }
}

impl NDSIcon {
    /// Decodes the icon/banner record stored at byte offset `offset` of
    /// `data`.
    ///
    /// Succeeds exactly when the buffer holds the whole record: the common
    /// fields always, and also the extended block when the stored version
    /// reaches the threshold. A truncated record is rejected with
    /// `UnexpectedEndOfData` and is never read out of bounds.
    pub fn decode(data: &Vec<u8>, offset: usize) -> (r: Result<NDSIcon, DecodeError>)
        ensures
            match r {
                Ok(icon) => offset + ICON_COMMON_SIZE <= data@.len()
                    && (le16(data@, offset as int) >= ICON_EXTENDED_VERSION
                        ==> offset + ICON_EXTENDED_SIZE <= data@.len())
                    && icon_matches(icon, data@, offset as int)
                    && (icon.dsi_icon is Some <==> icon.version >= ICON_EXTENDED_VERSION),
                Err(e) => (offset + ICON_COMMON_SIZE > data@.len()
                    || (le16(data@, offset as int) >= ICON_EXTENDED_VERSION
                        && offset + ICON_EXTENDED_SIZE > data@.len()))
                    && (e matches DecodeError::UnexpectedEndOfData { offset: o, requested_length: l }
                        && o + l > data@.len()),
            },
    {
        let mut pos: usize = offset;
        let version = read_u16(data, &mut pos)?;
        let crc_1 = read_u16(data, &mut pos)?;
        let crc_2 = read_u16(data, &mut pos)?;
        let crc_3 = read_u16(data, &mut pos)?;
        let crc_4 = read_u16(data, &mut pos)?;
        let reserved = read_bytes(data, &mut pos, 22)?;
        let bitmap = read_bytes(data, &mut pos, 512)?;
        let palette = NDSIconPalette { colors: read_u16s(data, &mut pos, 16)? };
        let title_jp = BoundedUTF16String::new(read_u16s(data, &mut pos, 128)?);
        let title_en = BoundedUTF16String::new(read_u16s(data, &mut pos, 128)?);
        let title_fr = BoundedUTF16String::new(read_u16s(data, &mut pos, 128)?);
        let title_de = BoundedUTF16String::new(read_u16s(data, &mut pos, 128)?);
        let title_it = BoundedUTF16String::new(read_u16s(data, &mut pos, 128)?);
        let title_es = BoundedUTF16String::new(read_u16s(data, &mut pos, 128)?);
        let title_zh = BoundedUTF16String::new(read_u16s(data, &mut pos, 128)?);
        let title_kr = BoundedUTF16String::new(read_u16s(data, &mut pos, 128)?);
        let zerofilled = read_bytes(data, &mut pos, 2048)?;
        let dsi_icon = if version >= ICON_EXTENDED_VERSION {
            let mut frames: Vec<DSIIconFrame> = Vec::new();
            let mut k: usize = 0;
            while k < 8
                invariant
                    k <= 8,
                    le16(data@, offset as int) >= ICON_EXTENDED_VERSION,
                    pos == offset + 4672 + 512 * k,
                    pos <= data@.len(),
                    frames@.len() == k,
                    forall|j: int|
                        0 <= j < k ==> (#[trigger] frames@[j]).data@ == data@.subrange(
                            offset + 4672 + 512 * j,
                            offset + 4672 + 512 * j + 512,
                        ),
                decreases 8 - k,
            {
                let frame = read_bytes(data, &mut pos, 512)?;
                frames.push(DSIIconFrame { data: frame });
                k = k + 1;
            }
            let mut frame_palettes: Vec<NDSIconPalette> = Vec::new();
            let mut k: usize = 0;
            while k < 8
                invariant
                    k <= 8,
                    le16(data@, offset as int) >= ICON_EXTENDED_VERSION,
                    pos == offset + 8768 + 32 * k,
                    pos <= data@.len(),
                    frame_palettes@.len() == k,
                    forall|j: int|
                        0 <= j < k ==> palette_matches(
                            #[trigger] frame_palettes@[j],
                            data@,
                            offset + 8768 + 32 * j,
                        ),
                decreases 8 - k,
            {
                let colors = read_u16s(data, &mut pos, 16)?;
                frame_palettes.push(NDSIconPalette { colors });
                k = k + 1;
            }
            let sequence = read_u16s(data, &mut pos, 64)?;
            Some(DSIIcon { frames, frame_palettes, sequence })
        } else {
            None
        };
        Ok(NDSIcon {
            version,
            crc_1,
            crc_2,
            crc_3,
            crc_4,
            reserved,
            bitmap,
            palette,
            title_jp,
            title_en,
            title_fr,
            title_de,
            title_it,
            title_es,
            title_zh,
            title_kr,
            zerofilled,
            dsi_icon,
        })
    }

    /// The static 32x32 icon raster: the legacy bitmap reconstructed under
    /// the legacy palette, unflipped.
    pub fn static_raster(&self) -> (r: Vec<Rgba>)
        requires
            self.bitmap@.len() == 512,
            self.palette.wf(),
        ensures
            raster_matches(r@, self.bitmap@, self.palette.colors@, false, false),
    {
        dump_icon_frame(&self.bitmap, &self.palette, IconAnimation::default())
    }
}

/// Decodes the icon/banner record that `header` locates inside `data`.
///
/// A zero or out-of-buffer `icon_banner_offset` is rejected as
/// `InvalidOffset` before the record itself is touched; a record that does
/// not fit inside the buffer is rejected as `UnexpectedEndOfData`.
pub fn decode_icon(header: &NDSHeader, data: &Vec<u8>) -> (r: Result<NDSIcon, DecodeError>)
    ensures
        match r {
            Ok(icon) => header.icon_banner_offset != 0
                && header.icon_banner_offset + ICON_COMMON_SIZE <= data@.len()
                && icon_matches(icon, data@, header.icon_banner_offset as int)
                && (icon.dsi_icon is Some <==> icon.version >= ICON_EXTENDED_VERSION),
            Err(e) => if header.icon_banner_offset == 0
                || header.icon_banner_offset >= data@.len() {
                e == DecodeError::InvalidOffset
            } else {
                (header.icon_banner_offset + ICON_COMMON_SIZE > data@.len()
                    || (le16(data@, header.icon_banner_offset as int) >= ICON_EXTENDED_VERSION
                        && header.icon_banner_offset + ICON_EXTENDED_SIZE > data@.len()))
                    && e matches DecodeError::UnexpectedEndOfData { .. }
            },
        },
{
    let off = header.icon_banner_offset;
    if off == 0 || (off as u64) >= data.len() as u64 {
        Err(DecodeError::InvalidOffset)
    } else {
        NDSIcon::decode(data, off as usize)
    }
}

} // verus!
