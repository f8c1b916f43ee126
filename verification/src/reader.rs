use vstd::prelude::*;
use crate::error::DecodeError;

verus! {

/// The little-endian 16-bit value stored at byte offset `i` of `b`.
pub open spec fn le16(b: Seq<u8>, i: int) -> u16 {
    (b[i] + b[i + 1] * 0x100) as u16
}

/// The little-endian 32-bit value stored at byte offset `i` of `b`.
pub open spec fn le32(b: Seq<u8>, i: int) -> u32 {
    (b[i] + b[i + 1] * 0x100 + b[i + 2] * 0x10000 + b[i + 3] * 0x1000000) as u32
}

/// The little-endian 64-bit value stored at byte offset `i` of `b`.
pub open spec fn le64(b: Seq<u8>, i: int) -> u64 {
    (b[i] + b[i + 1] * 0x100 + b[i + 2] * 0x10000 + b[i + 3] * 0x1000000
        + b[i + 4] * 0x1_0000_0000 + b[i + 5] * 0x100_0000_0000
        + b[i + 6] * 0x1_0000_0000_0000 + b[i + 7] * 0x100_0000_0000_0000) as u64
}

/// Reads one byte at the cursor and advances it, or fails without moving it.
pub fn read_u8(data: &Vec<u8>, pos: &mut usize) -> (r: Result<u8, DecodeError>)
    ensures
        match r {
            Ok(v) => *old(pos) + 1 <= data@.len() && *final(pos) == *old(pos) + 1
                && v == data@[*old(pos) as int],
            Err(e) => *old(pos) + 1 > data@.len() && *final(pos) == *old(pos)
                && e == (DecodeError::UnexpectedEndOfData {
                    offset: *old(pos),
                    requested_length: 1,
                }),
        },
{
    if *pos < data.len() {
        let v = data[*pos];
        *pos = *pos + 1;
        Ok(v)
    } else {
        Err(DecodeError::UnexpectedEndOfData { offset: *pos, requested_length: 1 })
    }
}

/// Reads a little-endian u16 at the cursor and advances it by 2.
pub fn read_u16(data: &Vec<u8>, pos: &mut usize) -> (r: Result<u16, DecodeError>)
    ensures
        match r {
            Ok(v) => *old(pos) + 2 <= data@.len() && *final(pos) == *old(pos) + 2
                && v == le16(data@, *old(pos) as int),
            Err(e) => *old(pos) + 2 > data@.len() && *final(pos) == *old(pos)
                && e == (DecodeError::UnexpectedEndOfData {
                    offset: *old(pos),
                    requested_length: 2,
                }),
        },
{
    if data.len() >= 2 && *pos <= data.len() - 2 {
        let b0 = data[*pos];
        let b1 = data[*pos + 1];
        *pos = *pos + 2;
        Ok((b0 as u16) + (b1 as u16) * 0x100)
    } else {
        Err(DecodeError::UnexpectedEndOfData { offset: *pos, requested_length: 2 })
    }
}

/// Reads a little-endian u32 at the cursor and advances it by 4.
pub fn read_u32(data: &Vec<u8>, pos: &mut usize) -> (r: Result<u32, DecodeError>)
    ensures
        match r {
            Ok(v) => *old(pos) + 4 <= data@.len() && *final(pos) == *old(pos) + 4
                && v == le32(data@, *old(pos) as int),
            Err(e) => *old(pos) + 4 > data@.len() && *final(pos) == *old(pos)
                && e == (DecodeError::UnexpectedEndOfData {
                    offset: *old(pos),
                    requested_length: 4,
                }),
        },
{
    if data.len() >= 4 && *pos <= data.len() - 4 {
        let b0 = data[*pos];
        let b1 = data[*pos + 1];
        let b2 = data[*pos + 2];
        let b3 = data[*pos + 3];
        *pos = *pos + 4;
        Ok((b0 as u32) + (b1 as u32) * 0x100 + (b2 as u32) * 0x10000 + (b3 as u32) * 0x1000000)
    } else {
        Err(DecodeError::UnexpectedEndOfData { offset: *pos, requested_length: 4 })
    }
}

/// Reads a little-endian u64 at the cursor and advances it by 8.
pub fn read_u64(data: &Vec<u8>, pos: &mut usize) -> (r: Result<u64, DecodeError>)
    ensures
        match r {
            Ok(v) => *old(pos) + 8 <= data@.len() && *final(pos) == *old(pos) + 8
                && v == le64(data@, *old(pos) as int),
            Err(e) => *old(pos) + 8 > data@.len() && *final(pos) == *old(pos)
                && e == (DecodeError::UnexpectedEndOfData {
                    offset: *old(pos),
                    requested_length: 8,
                }),
        },
{
    if data.len() >= 8 && *pos <= data.len() - 8 {
        let b0 = data[*pos];
        let b1 = data[*pos + 1];
        let b2 = data[*pos + 2];
        let b3 = data[*pos + 3];
        let b4 = data[*pos + 4];
        let b5 = data[*pos + 5];
        let b6 = data[*pos + 6];
        let b7 = data[*pos + 7];
        *pos = *pos + 8;
        Ok((b0 as u64) + (b1 as u64) * 0x100 + (b2 as u64) * 0x10000 + (b3 as u64) * 0x1000000
            + (b4 as u64) * 0x1_0000_0000 + (b5 as u64) * 0x100_0000_0000
            + (b6 as u64) * 0x1_0000_0000_0000 + (b7 as u64) * 0x100_0000_0000_0000)
    } else {
        Err(DecodeError::UnexpectedEndOfData { offset: *pos, requested_length: 8 })
    }
}

/// Reads exactly `n` bytes at the cursor and advances it by `n`.
pub fn read_bytes(data: &Vec<u8>, pos: &mut usize, n: usize) -> (r: Result<Vec<u8>, DecodeError>)
    ensures
        match r {
            Ok(v) => *old(pos) + n <= data@.len() && *final(pos) == *old(pos) + n
                && v@ == data@.subrange(*old(pos) as int, *old(pos) as int + n as int),
            Err(e) => *old(pos) + n > data@.len() && *final(pos) == *old(pos)
                && e == (DecodeError::UnexpectedEndOfData {
                    offset: *old(pos),
                    requested_length: n,
                }),
        },
{
    if *pos <= data.len() && n <= data.len() - *pos {
        let start = *pos;
        let mut out: Vec<u8> = Vec::new();
        let mut i: usize = 0;
        while i < n
            invariant
                i <= n,
                start + n <= data@.len(),
                data@.len() <= usize::MAX,
                out@.len() == i,
                forall|j: int| 0 <= j < i ==> out@[j] == data@[start + j],
            decreases n - i,
        {
            out.push(data[start + i]);
            i = i + 1;
        }
        assert(out@ =~= data@.subrange(start as int, start as int + n as int));
        *pos = start + n;
        Ok(out)
    } else {
        Err(DecodeError::UnexpectedEndOfData { offset: *pos, requested_length: n })
    }
}

/// Reads `n` consecutive little-endian u16 values and advances the cursor by `2 * n`.
pub fn read_u16s(data: &Vec<u8>, pos: &mut usize, n: usize) -> (r: Result<Vec<u16>, DecodeError>)
    requires
        n <= 0x8000,
    ensures
        match r {
            Ok(v) => *old(pos) + 2 * n <= data@.len() && *final(pos) == *old(pos) + 2 * n
                && v@.len() == n
                && forall|j: int| 0 <= j < n ==> v@[j] == le16(data@, *old(pos) + 2 * j),
            Err(e) => *old(pos) + 2 * n > data@.len() && *final(pos) == *old(pos)
                && e == (DecodeError::UnexpectedEndOfData {
                    offset: *old(pos),
                    requested_length: (2 * n) as usize,
                }),
        },
{
    if *pos <= data.len() && n <= (data.len() - *pos) / 2 {
        let start = *pos;
        let mut out: Vec<u16> = Vec::new();
        let mut i: usize = 0;
        while i < n
            invariant
                i <= n,
                n <= 0x8000,
                start + 2 * n <= data@.len(),
                data@.len() <= usize::MAX,
                out@.len() == i,
                forall|j: int| 0 <= j < i ==> out@[j] == le16(data@, start + 2 * j),
            decreases n - i,
        {
            let b0 = data[start + 2 * i];
            let b1 = data[start + 2 * i + 1];
            out.push((b0 as u16) + (b1 as u16) * 0x100);
            i = i + 1;
        }
        *pos = start + 2 * n;
        Ok(out)
    } else {
        Err(DecodeError::UnexpectedEndOfData { offset: *pos, requested_length: 2 * n })
    }
}

} // verus!
