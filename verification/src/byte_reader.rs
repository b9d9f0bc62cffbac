//! Little-endian integer readers over a byte slice with an explicit cursor.

use vstd::prelude::*;

verus! {

/// The 16-bit little-endian integer at index `i`.
pub open spec fn spec_le_u16(bytes: Seq<u8>, i: int) -> u16 {
    (bytes[i] + bytes[i + 1] * 0x100) as u16
}

/// The 32-bit little-endian integer at index `i`.
pub open spec fn spec_le_u32(bytes: Seq<u8>, i: int) -> u32 {
    (bytes[i] + bytes[i + 1] * 0x100 + bytes[i + 2] * 0x10000 + bytes[i + 3] * 0x1000000) as u32
}

/// The 64-bit little-endian integer at index `i`.
pub open spec fn spec_le_u64(bytes: Seq<u8>, i: int) -> u64 {
    (bytes[i] + bytes[i + 1] * 0x100 + bytes[i + 2] * 0x10000 + bytes[i + 3] * 0x1000000 + bytes[i
        + 4] * 0x100000000 + bytes[i + 5] * 0x10000000000 + bytes[i + 6] * 0x1000000000000 + bytes[i
        + 7] * 0x100000000000000) as u64
}

/// Reads one byte at the cursor and advances it; `None` when no byte is
/// left, with the cursor unmoved.
pub fn read_u8(bytes: &[u8], pos: &mut usize) -> (r: Option<u8>)
    requires
        *old(pos) <= bytes@.len(),
    ensures
        (r is Some) == (*old(pos) + 1 <= bytes@.len()),
        r is Some ==> *final(pos) == *old(pos) + 1 && r->Some_0 == bytes@[*old(pos) as int],
        r is None ==> *final(pos) == *old(pos),
        *final(pos) <= bytes@.len(),
{
    if *pos < bytes.len() {
        let v = bytes[*pos];
        *pos = *pos + 1;
        Some(v)
    } else {
        None
    }
}

/// Reads a 16-bit little-endian integer at the cursor and advances it by 2;
/// `None` when fewer than 2 bytes are left, with the cursor unmoved.
pub fn read_le_u16(bytes: &[u8], pos: &mut usize) -> (r: Option<u16>)
    requires
        *old(pos) <= bytes@.len(),
    ensures
        (r is Some) == (*old(pos) + 2 <= bytes@.len()),
        r is Some ==> *final(pos) == *old(pos) + 2 && r->Some_0 == spec_le_u16(
            bytes@,
            *old(pos) as int,
        ),
        r is None ==> *final(pos) == *old(pos),
        *final(pos) <= bytes@.len(),
{
    if bytes.len() - *pos >= 2 {
        let b0 = bytes[*pos];
        let b1 = bytes[*pos + 1];
        *pos = *pos + 2;
        Some((b0 as u16) + (b1 as u16) * 0x100)
    } else {
        None
    }
}

/// Reads a 32-bit little-endian integer at the cursor and advances it by 4;
/// `None` when fewer than 4 bytes are left, with the cursor unmoved.
pub fn read_le_u32(bytes: &[u8], pos: &mut usize) -> (r: Option<u32>)
    requires
        *old(pos) <= bytes@.len(),
    ensures
        (r is Some) == (*old(pos) + 4 <= bytes@.len()),
        r is Some ==> *final(pos) == *old(pos) + 4 && r->Some_0 == spec_le_u32(
            bytes@,
            *old(pos) as int,
        ),
        r is None ==> *final(pos) == *old(pos),
        *final(pos) <= bytes@.len(),
{
    if bytes.len() - *pos >= 4 {
        let b0 = bytes[*pos];
        let b1 = bytes[*pos + 1];
        let b2 = bytes[*pos + 2];
        let b3 = bytes[*pos + 3];
        *pos = *pos + 4;
        Some((b0 as u32) + (b1 as u32) * 0x100 + (b2 as u32) * 0x10000 + (b3 as u32) * 0x1000000)
    } else {
        None
    }
}

/// Reads a 64-bit little-endian integer at the cursor and advances it by 8;
/// `None` when fewer than 8 bytes are left, with the cursor unmoved.
pub fn read_le_u64(bytes: &[u8], pos: &mut usize) -> (r: Option<u64>)
    requires
        *old(pos) <= bytes@.len(),
    ensures
        (r is Some) == (*old(pos) + 8 <= bytes@.len()),
        r is Some ==> *final(pos) == *old(pos) + 8 && r->Some_0 == spec_le_u64(
            bytes@,
            *old(pos) as int,
        ),
        r is None ==> *final(pos) == *old(pos),
        *final(pos) <= bytes@.len(),
{
    if bytes.len() - *pos >= 8 {
        let b0 = bytes[*pos];
        let b1 = bytes[*pos + 1];
        let b2 = bytes[*pos + 2];
        let b3 = bytes[*pos + 3];
        let b4 = bytes[*pos + 4];
        let b5 = bytes[*pos + 5];
        let b6 = bytes[*pos + 6];
        let b7 = bytes[*pos + 7];
        *pos = *pos + 8;
        Some(
            (b0 as u64) + (b1 as u64) * 0x100 + (b2 as u64) * 0x10000 + (b3 as u64) * 0x1000000 + (
            b4 as u64) * 0x100000000 + (b5 as u64) * 0x10000000000 + (b6 as u64) * 0x1000000000000
                + (b7 as u64) * 0x100000000000000,
        )
    } else {
        None
    }
}

} // verus!
