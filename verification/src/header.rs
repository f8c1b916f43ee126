use vstd::prelude::*;
use vstd::arithmetic::div_mod::lemma_fundamental_div_mod_converse;
use crate::error::DecodeError;
use crate::reader::{le16, le32, le64, read_u8, read_u16, read_u32, read_u64, read_bytes};
use crate::strings::BoundedString;

verus! {

/// Total length in bytes of the fixed cartridge header record.
pub const HEADER_SIZE: usize = 384;

/// The fixed-size cartridge metadata header, one per image, decoded from the
/// first `HEADER_SIZE` bytes of the input buffer. All multi-byte fields are
/// little-endian; reserved ranges are preserved as opaque bytes.
pub struct NDSHeader {
    pub title: BoundedString,
    pub gamecode: BoundedString,
    pub makercode: u16,
    pub unitcode: u8,
    pub encryption_seed: u8,
    pub device_capacity: u8,
    pub reserved_1: Vec<u8>,
    pub gamerevision: u16,
    pub romversion: u8,
    pub autostart: u8,
    pub arm9_offset: u32,
    pub arm9_entry: u32,
    pub arm9_load: u32,
    pub arm9_size: u32,
    pub arm7_offset: u32,
    pub arm7_entry: u32,
    pub arm7_load: u32,
    pub arm7_size: u32,
    pub fnt_offset: u32,
    pub fnt_size: u32,
    pub fat_offset: u32,
    pub fat_size: u32,
    pub arm9_overlay_offset: u32,
    pub arm9_overlay_size: u32,
    pub arm7_overlay_offset: u32,
    pub arm7_overlay_length: u32,
    pub _1: u32,
    pub _2: u32,
    pub icon_banner_offset: u32,
    pub secure_area_crc: u16,
    pub secure_tfr_timeout: u16,
    pub arm9_autoload: u32,
    pub arm7_autoload: u32,
    pub secure_disable: u64,
    pub ntr_region_size: u32,
    pub header_size: u32,
    pub reserved_2: Vec<u8>,
    pub logo: Vec<u8>,
    pub logo_crc: u16,
    pub header_crc: u16,
    pub debugger_reserved: Vec<u8>,
}

/// Every field of `h` holds exactly the value stored at its documented
/// position in the first `HEADER_SIZE` bytes of `b`.
pub open spec fn header_matches(h: NDSHeader, b: Seq<u8>) -> bool {
    &&& h.title.bytes() == b.subrange(0, 12)
    &&& h.gamecode.bytes() == b.subrange(12, 16)
    &&& h.makercode == le16(b, 16)
    &&& h.unitcode == b[18]
    &&& h.encryption_seed == b[19]
    &&& h.device_capacity == b[20]
    &&& h.reserved_1@ == b.subrange(21, 28)
    &&& h.gamerevision == le16(b, 28)
    &&& h.romversion == b[30]
    &&& h.autostart == b[31]
    &&& h.arm9_offset == le32(b, 32)
    &&& h.arm9_entry == le32(b, 36)
    &&& h.arm9_load == le32(b, 40)
    &&& h.arm9_size == le32(b, 44)
    &&& h.arm7_offset == le32(b, 48)
    &&& h.arm7_entry == le32(b, 52)
    &&& h.arm7_load == le32(b, 56)
    &&& h.arm7_size == le32(b, 60)
    &&& h.fnt_offset == le32(b, 64)
    &&& h.fnt_size == le32(b, 68)
    &&& h.fat_offset == le32(b, 72)
    &&& h.fat_size == le32(b, 76)
    &&& h.arm9_overlay_offset == le32(b, 80)
    &&& h.arm9_overlay_size == le32(b, 84)
    &&& h.arm7_overlay_offset == le32(b, 88)
    &&& h.arm7_overlay_length == le32(b, 92)
    &&& h._1 == le32(b, 96)
    &&& h._2 == le32(b, 100)
    &&& h.icon_banner_offset == le32(b, 104)
    &&& h.secure_area_crc == le16(b, 108)
    &&& h.secure_tfr_timeout == le16(b, 110)
    &&& h.arm9_autoload == le32(b, 112)
    &&& h.arm7_autoload == le32(b, 116)
    &&& h.secure_disable == le64(b, 120)
    &&& h.ntr_region_size == le32(b, 128)
    &&& h.header_size == le32(b, 132)
    &&& h.reserved_2@ == b.subrange(136, 192)
    &&& h.logo@ == b.subrange(192, 348)
    &&& h.logo_crc == le16(b, 348)
    &&& h.header_crc == le16(b, 350)
    &&& h.debugger_reserved@ == b.subrange(352, 384)
}

impl NDSHeader {
    /// Decodes the fixed header record from the start of `data`.
    ///
    /// Succeeds exactly when the buffer holds at least the full fixed header;
    /// a shorter buffer is rejected with `UnexpectedEndOfData` and is never
    /// read out of bounds.
    pub fn decode(data: &Vec<u8>) -> (r: Result<NDSHeader, DecodeError>)
        ensures
            match r {
                Ok(h) => data@.len() >= HEADER_SIZE && header_matches(h, data@),
                Err(e) => data@.len() < HEADER_SIZE
                    && (e matches DecodeError::UnexpectedEndOfData { offset, requested_length }
                        && offset + requested_length > data@.len() && offset < HEADER_SIZE),
            },
    {
        let mut pos: usize = 0;
        let title = BoundedString::new(read_bytes(data, &mut pos, 12)?);
        let gamecode = BoundedString::new(read_bytes(data, &mut pos, 4)?);
        let makercode = read_u16(data, &mut pos)?;
        let unitcode = read_u8(data, &mut pos)?;
        let encryption_seed = read_u8(data, &mut pos)?;
        let device_capacity = read_u8(data, &mut pos)?;
        let reserved_1 = read_bytes(data, &mut pos, 7)?;
        let gamerevision = read_u16(data, &mut pos)?;
        let romversion = read_u8(data, &mut pos)?;
        let autostart = read_u8(data, &mut pos)?;
        let arm9_offset = read_u32(data, &mut pos)?;
        let arm9_entry = read_u32(data, &mut pos)?;
        let arm9_load = read_u32(data, &mut pos)?;
        let arm9_size = read_u32(data, &mut pos)?;
        let arm7_offset = read_u32(data, &mut pos)?;
        let arm7_entry = read_u32(data, &mut pos)?;
        let arm7_load = read_u32(data, &mut pos)?;
        let arm7_size = read_u32(data, &mut pos)?;
        let fnt_offset = read_u32(data, &mut pos)?;
        let fnt_size = read_u32(data, &mut pos)?;
        let fat_offset = read_u32(data, &mut pos)?;
        let fat_size = read_u32(data, &mut pos)?;
        let arm9_overlay_offset = read_u32(data, &mut pos)?;
        let arm9_overlay_size = read_u32(data, &mut pos)?;
        let arm7_overlay_offset = read_u32(data, &mut pos)?;
        let arm7_overlay_length = read_u32(data, &mut pos)?;
        let unknown_1 = read_u32(data, &mut pos)?;
        let unknown_2 = read_u32(data, &mut pos)?;
        let icon_banner_offset = read_u32(data, &mut pos)?;
        let secure_area_crc = read_u16(data, &mut pos)?;
        let secure_tfr_timeout = read_u16(data, &mut pos)?;
        let arm9_autoload = read_u32(data, &mut pos)?;
        let arm7_autoload = read_u32(data, &mut pos)?;
        let secure_disable = read_u64(data, &mut pos)?;
        let ntr_region_size = read_u32(data, &mut pos)?;
        let header_size = read_u32(data, &mut pos)?;
        let reserved_2 = read_bytes(data, &mut pos, 56)?;
        let logo = read_bytes(data, &mut pos, 156)?;
        let logo_crc = read_u16(data, &mut pos)?;
        let header_crc = read_u16(data, &mut pos)?;
        let debugger_reserved = read_bytes(data, &mut pos, 32)?;
        Ok(NDSHeader {
            title,
            gamecode,
            makercode,
            unitcode,
            encryption_seed,
            device_capacity,
            reserved_1,
            gamerevision,
            romversion,
            autostart,
            arm9_offset,
            arm9_entry,
            arm9_load,
            arm9_size,
            arm7_offset,
            arm7_entry,
            arm7_load,
            arm7_size,
            fnt_offset,
            fnt_size,
            fat_offset,
            fat_size,
            arm9_overlay_offset,
            arm9_overlay_size,
            arm7_overlay_offset,
            arm7_overlay_length,
            _1: unknown_1,
            _2: unknown_2,
            icon_banner_offset,
            secure_area_crc,
            secure_tfr_timeout,
            arm9_autoload,
            arm7_autoload,
            secure_disable,
            ntr_region_size,
            header_size,
            reserved_2,
            logo,
            logo_crc,
            header_crc,
            debugger_reserved,
        })
    }

    /// The bytes of the first executable region, as located by this header.
    /// Rejected with `InvalidOffset` when the declared range does not resolve
    /// within the buffer.
    pub fn arm9_region(&self, data: &Vec<u8>) -> (r: Result<Vec<u8>, DecodeError>)
        ensures
            match r {
                Ok(v) => self.arm9_offset + self.arm9_size <= data@.len()
                    && v@ == data@.subrange(
                        self.arm9_offset as int,
                        self.arm9_offset + self.arm9_size,
                    ),
                Err(e) => self.arm9_offset + self.arm9_size > data@.len()
                    && e == DecodeError::InvalidOffset,
            },
    {
        extract_region(data, self.arm9_offset, self.arm9_size)
    }

    /// The bytes of the second executable region, as located by this header.
    /// Rejected with `InvalidOffset` when the declared range does not resolve
    /// within the buffer.
    pub fn arm7_region(&self, data: &Vec<u8>) -> (r: Result<Vec<u8>, DecodeError>)
        ensures
            match r {
                Ok(v) => self.arm7_offset + self.arm7_size <= data@.len()
                    && v@ == data@.subrange(
                        self.arm7_offset as int,
                        self.arm7_offset + self.arm7_size,
                    ),
                Err(e) => self.arm7_offset + self.arm7_size > data@.len()
                    && e == DecodeError::InvalidOffset,
            },
    {
        extract_region(data, self.arm7_offset, self.arm7_size)
    }
}

/// The `size` bytes of `data` starting at `offset`, or `InvalidOffset` when
/// that range does not lie within the buffer.
pub fn extract_region(data: &Vec<u8>, offset: u32, size: u32) -> (r: Result<Vec<u8>, DecodeError>)
    ensures
        match r {
            Ok(v) => offset + size <= data@.len()
                && v@ == data@.subrange(offset as int, offset + size),
            Err(e) => offset + size > data@.len() && e == DecodeError::InvalidOffset,
        },
{
    if (offset as u64) + (size as u64) <= data.len() as u64 {
        let mut pos: usize = offset as usize;
        match read_bytes(data, &mut pos, size as usize) {
            Ok(v) => Ok(v),
            Err(_) => Err(DecodeError::InvalidOffset),
        }
    } else {
        Err(DecodeError::InvalidOffset)
    }
}

/// The two bytes that encode `v` little-endian.
pub open spec fn u16_le_bytes(v: u16) -> Seq<u8> {
    seq![(v % 0x100) as u8, (v / 0x100) as u8]
}

/// The four bytes that encode `v` little-endian.
pub open spec fn u32_le_bytes(v: u32) -> Seq<u8> {
    seq![
        (v % 0x100) as u8,
        ((v / 0x100) % 0x100) as u8,
        ((v / 0x10000) % 0x100) as u8,
        ((v / 0x1000000) % 0x100) as u8,
    ]
}

/// The eight bytes that encode `v` little-endian.
pub open spec fn u64_le_bytes(v: u64) -> Seq<u8> {
    seq![
        (v % 0x100) as u8,
        ((v / 0x100) % 0x100) as u8,
        ((v / 0x10000) % 0x100) as u8,
        ((v / 0x1000000) % 0x100) as u8,
        ((v / 0x1_0000_0000) % 0x100) as u8,
        ((v / 0x100_0000_0000) % 0x100) as u8,
        ((v / 0x1_0000_0000_0000) % 0x100) as u8,
        ((v / 0x100_0000_0000_0000) % 0x100) as u8,
    ]
}

/// For `x = lo + p * mid + p * 256 * hi` with `lo` below `p` and `mid` below
/// 256, the base-256 digit of `x` at place `p` is `mid`.
proof fn lemma_digit(x: int, lo: int, mid: int, hi: int, p: int)
    requires
        x == lo + p * mid + p * 256 * hi,
        0 <= lo < p,
        0 <= mid < 256,
        0 <= hi,
        0 < p,
    ensures
        x / p % 256 == mid,
{
    assert((mid + 256 * hi) * p == p * mid + p * 256 * hi) by (nonlinear_arith);
    lemma_fundamental_div_mod_converse(x, p, mid + 256 * hi, lo);
    lemma_fundamental_div_mod_converse(mid + 256 * hi, 256, hi, mid);
}

/// Re-encoding the u16 decoded at offset `i` reproduces the original bytes.
pub proof fn lemma_le16_round_trip(b: Seq<u8>, i: int)
    requires
        0 <= i,
        i + 2 <= b.len(),
    ensures
        u16_le_bytes(le16(b, i)) == b.subrange(i, i + 2),
{
    let v = le16(b, i) as int;
    lemma_digit(v, 0, b[i] as int, b[i + 1] as int, 1);
    lemma_digit(v, b[i] as int, b[i + 1] as int, 0, 0x100);
    assert(u16_le_bytes(le16(b, i)) =~= b.subrange(i, i + 2));
}

/// Re-encoding the u32 decoded at offset `i` reproduces the original bytes.
pub proof fn lemma_le32_round_trip(b: Seq<u8>, i: int)
    requires
        0 <= i,
        i + 4 <= b.len(),
    ensures
        u32_le_bytes(le32(b, i)) == b.subrange(i, i + 4),
{
    let v = le32(b, i) as int;
    lemma_digit(v, 0, b[i] as int, (b[i + 1] + b[i + 2] * 0x100 + b[i + 3] * 0x10000) as int, 1);
    lemma_digit(v, b[i] as int, b[i + 1] as int, (b[i + 2] + b[i + 3] * 0x100) as int, 0x100);
    lemma_digit(v, (b[i] + b[i + 1] * 0x100) as int, b[i + 2] as int, b[i + 3] as int, 0x10000);
    lemma_digit(v, (b[i] + b[i + 1] * 0x100 + b[i + 2] * 0x10000) as int, b[i + 3] as int, 0,
        0x1000000);
    assert(u32_le_bytes(le32(b, i)) =~= b.subrange(i, i + 4));
}

/// Re-encoding the u64 decoded at offset `i` reproduces the original bytes.
pub proof fn lemma_le64_round_trip(b: Seq<u8>, i: int)
    requires
        0 <= i,
        i + 8 <= b.len(),
    ensures
        u64_le_bytes(le64(b, i)) == b.subrange(i, i + 8),
{
    let b0 = b[i] as int;
    let b1 = b[i + 1] as int;
    let b2 = b[i + 2] as int;
    let b3 = b[i + 3] as int;
    let b4 = b[i + 4] as int;
    let b5 = b[i + 5] as int;
    let b6 = b[i + 6] as int;
    let b7 = b[i + 7] as int;
    let v = le64(b, i) as int;
    lemma_digit(v, 0, b0,
        b1 + b2 * 0x100 + b3 * 0x10000 + b4 * 0x1000000 + b5 * 0x1_0000_0000
            + b6 * 0x100_0000_0000 + b7 * 0x1_0000_0000_0000, 1);
    lemma_digit(v, b0, b1,
        b2 + b3 * 0x100 + b4 * 0x10000 + b5 * 0x1000000 + b6 * 0x1_0000_0000
            + b7 * 0x100_0000_0000, 0x100);
    lemma_digit(v, b0 + b1 * 0x100, b2,
        b3 + b4 * 0x100 + b5 * 0x10000 + b6 * 0x1000000 + b7 * 0x1_0000_0000, 0x10000);
    lemma_digit(v, b0 + b1 * 0x100 + b2 * 0x10000, b3,
        b4 + b5 * 0x100 + b6 * 0x10000 + b7 * 0x1000000, 0x1000000);
    lemma_digit(v, b0 + b1 * 0x100 + b2 * 0x10000 + b3 * 0x1000000, b4,
        b5 + b6 * 0x100 + b7 * 0x10000, 0x1_0000_0000);
    lemma_digit(v, b0 + b1 * 0x100 + b2 * 0x10000 + b3 * 0x1000000 + b4 * 0x1_0000_0000, b5,
        b6 + b7 * 0x100, 0x100_0000_0000);
    lemma_digit(v,
        b0 + b1 * 0x100 + b2 * 0x10000 + b3 * 0x1000000 + b4 * 0x1_0000_0000
            + b5 * 0x100_0000_0000, b6, b7, 0x1_0000_0000_0000);
    lemma_digit(v,
        b0 + b1 * 0x100 + b2 * 0x10000 + b3 * 0x1000000 + b4 * 0x1_0000_0000
            + b5 * 0x100_0000_0000 + b6 * 0x1_0000_0000_0000, b7, 0, 0x100_0000_0000_0000);
    assert(u64_le_bytes(le64(b, i)) =~= b.subrange(i, i + 8));
}

/// Law: decoding a well-formed header buffer and re-encoding each decoded
/// field value reproduces, field by field, exactly the bytes the field was
/// decoded from.
pub proof fn lemma_header_round_trip(h: NDSHeader, b: Seq<u8>)
    requires
        b.len() >= HEADER_SIZE,
        header_matches(h, b),
    ensures
        h.title.bytes() == b.subrange(0, 12),
        h.gamecode.bytes() == b.subrange(12, 16),
        u16_le_bytes(h.makercode) == b.subrange(16, 18),
        seq![h.unitcode] == b.subrange(18, 19),
        seq![h.encryption_seed] == b.subrange(19, 20),
        seq![h.device_capacity] == b.subrange(20, 21),
        h.reserved_1@ == b.subrange(21, 28),
        u16_le_bytes(h.gamerevision) == b.subrange(28, 30),
        seq![h.romversion] == b.subrange(30, 31),
        seq![h.autostart] == b.subrange(31, 32),
        u32_le_bytes(h.arm9_offset) == b.subrange(32, 36),
        u32_le_bytes(h.arm9_entry) == b.subrange(36, 40),
        u32_le_bytes(h.arm9_load) == b.subrange(40, 44),
        u32_le_bytes(h.arm9_size) == b.subrange(44, 48),
        u32_le_bytes(h.arm7_offset) == b.subrange(48, 52),
        u32_le_bytes(h.arm7_entry) == b.subrange(52, 56),
        u32_le_bytes(h.arm7_load) == b.subrange(56, 60),
        u32_le_bytes(h.arm7_size) == b.subrange(60, 64),
        u32_le_bytes(h.fnt_offset) == b.subrange(64, 68),
        u32_le_bytes(h.fnt_size) == b.subrange(68, 72),
        u32_le_bytes(h.fat_offset) == b.subrange(72, 76),
        u32_le_bytes(h.fat_size) == b.subrange(76, 80),
        u32_le_bytes(h.arm9_overlay_offset) == b.subrange(80, 84),
        u32_le_bytes(h.arm9_overlay_size) == b.subrange(84, 88),
        u32_le_bytes(h.arm7_overlay_offset) == b.subrange(88, 92),
        u32_le_bytes(h.arm7_overlay_length) == b.subrange(92, 96),
        u32_le_bytes(h._1) == b.subrange(96, 100),
        u32_le_bytes(h._2) == b.subrange(100, 104),
        u32_le_bytes(h.icon_banner_offset) == b.subrange(104, 108),
        u16_le_bytes(h.secure_area_crc) == b.subrange(108, 110),
        u16_le_bytes(h.secure_tfr_timeout) == b.subrange(110, 112),
        u32_le_bytes(h.arm9_autoload) == b.subrange(112, 116),
        u32_le_bytes(h.arm7_autoload) == b.subrange(116, 120),
        u64_le_bytes(h.secure_disable) == b.subrange(120, 128),
        u32_le_bytes(h.ntr_region_size) == b.subrange(128, 132),
        u32_le_bytes(h.header_size) == b.subrange(132, 136),
        h.reserved_2@ == b.subrange(136, 192),
        h.logo@ == b.subrange(192, 348),
        u16_le_bytes(h.logo_crc) == b.subrange(348, 350),
        u16_le_bytes(h.header_crc) == b.subrange(350, 352),
        h.debugger_reserved@ == b.subrange(352, 384),
{
    lemma_le16_round_trip(b, 16);
    lemma_le16_round_trip(b, 28);
    lemma_le16_round_trip(b, 108);
    lemma_le16_round_trip(b, 110);
    lemma_le16_round_trip(b, 348);
    lemma_le16_round_trip(b, 350);
    lemma_le32_round_trip(b, 32);
    lemma_le32_round_trip(b, 36);
    lemma_le32_round_trip(b, 40);
    lemma_le32_round_trip(b, 44);
    lemma_le32_round_trip(b, 48);
    lemma_le32_round_trip(b, 52);
    lemma_le32_round_trip(b, 56);
    lemma_le32_round_trip(b, 60);
    lemma_le32_round_trip(b, 64);
    lemma_le32_round_trip(b, 68);
    lemma_le32_round_trip(b, 72);
    lemma_le32_round_trip(b, 76);
    lemma_le32_round_trip(b, 80);
    lemma_le32_round_trip(b, 84);
    lemma_le32_round_trip(b, 88);
    lemma_le32_round_trip(b, 92);
    lemma_le32_round_trip(b, 96);
    lemma_le32_round_trip(b, 100);
    lemma_le32_round_trip(b, 104);
    lemma_le32_round_trip(b, 112);
    lemma_le32_round_trip(b, 116);
    lemma_le32_round_trip(b, 128);
    lemma_le32_round_trip(b, 132);
    lemma_le64_round_trip(b, 120);
    assert(seq![h.unitcode] =~= b.subrange(18, 19));
    assert(seq![h.encryption_seed] =~= b.subrange(19, 20));
    assert(seq![h.device_capacity] =~= b.subrange(20, 21));
    assert(seq![h.romversion] =~= b.subrange(30, 31));
    assert(seq![h.autostart] =~= b.subrange(31, 32));
}

} // verus!
