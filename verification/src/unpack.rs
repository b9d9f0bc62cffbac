//! Decoder for the variable-length (id, offset) records of an
//! address-library file.
//!
//! Each record begins with one control byte: the low nibble selects how the
//! id is encoded relative to the previous record's id, the high nibble's
//! bits 0-2 select how the offset is encoded relative to a working value,
//! and bit 3 of the high nibble divides that working value by the pointer
//! size before decoding and re-multiplies the result afterwards.

use crate::byte_reader::{read_le_u16, read_le_u32, read_le_u64, read_u8, spec_le_u16, spec_le_u32,
    spec_le_u64};
use crate::mapping::{spec_sorted_by_id, Mapping};
use vstd::prelude::*;
use vstd::seq_lib::group_to_multiset_ensures;
use vstd::seq_lib::to_multiset_update;
use vstd::wrapping::u64_specs;

verus! {

/// Failures of decoding the record stream.
#[derive(Debug, Clone, Copy, PartialEq, Eq, Structural, Hash)]
pub enum UnpackError {
    /// The control byte's low nibble named no id encoding.
    InvalidId { id: u8 },
    /// The control byte's high nibble named no offset encoding.
    InvalidOffset { offset: u64 },
    /// The input ended inside a record.
    OutOfData,
    /// The file declares a pointer size of zero, which the offset encoding
    /// divides by.
    ZeroPointerSize,
}

/// What decoding an id with the given low nibble at `pos` yields, relative
/// to the previous id; deltas wrap at 64 bits.
pub open spec fn spec_parse_id(bytes: Seq<u8>, pos: int, low: u8, prev_id: u64) -> Result<
    (u64, int),
    UnpackError,
> {
    let len = bytes.len() as int;
    if low == 0 {
        if pos + 8 <= len {
            Ok((spec_le_u64(bytes, pos), pos + 8))
        } else {
            Err(UnpackError::OutOfData)
        }
    } else if low == 1 {
        Ok((u64_specs::wrapping_add(prev_id, 1), pos))
    } else if low == 2 {
        if pos + 1 <= len {
            Ok((u64_specs::wrapping_add(prev_id, bytes[pos] as u64), pos + 1))
        } else {
            Err(UnpackError::OutOfData)
        }
    } else if low == 3 {
        if pos + 1 <= len {
            Ok((u64_specs::wrapping_sub(prev_id, bytes[pos] as u64), pos + 1))
        } else {
            Err(UnpackError::OutOfData)
        }
    } else if low == 4 {
        if pos + 2 <= len {
            Ok((u64_specs::wrapping_add(prev_id, spec_le_u16(bytes, pos) as u64), pos + 2))
        } else {
            Err(UnpackError::OutOfData)
        }
    } else if low == 5 {
        if pos + 2 <= len {
            Ok((u64_specs::wrapping_sub(prev_id, spec_le_u16(bytes, pos) as u64), pos + 2))
        } else {
            Err(UnpackError::OutOfData)
        }
    } else if low == 6 {
        if pos + 2 <= len {
            Ok((spec_le_u16(bytes, pos) as u64, pos + 2))
        } else {
            Err(UnpackError::OutOfData)
        }
    } else if low == 7 {
        if pos + 4 <= len {
            Ok((spec_le_u32(bytes, pos) as u64, pos + 4))
        } else {
            Err(UnpackError::OutOfData)
        }
    } else {
        Err(UnpackError::InvalidId { id: low })
    }
}

/// What decoding an offset with the given selector (the high nibble's bits
/// 0-2) at `pos` yields, relative to the working value; deltas wrap at 64
/// bits.
pub open spec fn spec_parse_offset(bytes: Seq<u8>, pos: int, sel: u8, prev_offset: u64) -> Result<
    (u64, int),
    UnpackError,
> {
    let len = bytes.len() as int;
    if sel == 0 {
        if pos + 8 <= len {
            Ok((spec_le_u64(bytes, pos), pos + 8))
        } else {
            Err(UnpackError::OutOfData)
        }
    } else if sel == 1 {
        Ok((u64_specs::wrapping_add(prev_offset, 1), pos))
    } else if sel == 2 {
        if pos + 1 <= len {
            Ok((u64_specs::wrapping_add(prev_offset, bytes[pos] as u64), pos + 1))
        } else {
            Err(UnpackError::OutOfData)
        }
    } else if sel == 3 {
        if pos + 1 <= len {
            Ok((u64_specs::wrapping_sub(prev_offset, bytes[pos] as u64), pos + 1))
        } else {
            Err(UnpackError::OutOfData)
        }
    } else if sel == 4 {
        if pos + 2 <= len {
            Ok((u64_specs::wrapping_add(prev_offset, spec_le_u16(bytes, pos) as u64), pos + 2))
        } else {
            Err(UnpackError::OutOfData)
        }
    } else if sel == 5 {
        if pos + 2 <= len {
            Ok((u64_specs::wrapping_sub(prev_offset, spec_le_u16(bytes, pos) as u64), pos + 2))
        } else {
            Err(UnpackError::OutOfData)
        }
    } else if sel == 6 {
        if pos + 2 <= len {
            Ok((spec_le_u16(bytes, pos) as u64, pos + 2))
        } else {
            Err(UnpackError::OutOfData)
        }
    } else if sel == 7 {
        if pos + 4 <= len {
            Ok((spec_le_u32(bytes, pos) as u64, pos + 4))
        } else {
            Err(UnpackError::OutOfData)
        }
    } else {
        Err(UnpackError::InvalidOffset { offset: prev_offset })
    }
}

/// What decoding one whole record at `pos` yields, given the previous
/// record: the control byte, then the id, then the offset, with the divide
/// flag (bit 3 of the high nibble) dividing the working value by the
/// pointer size first and re-multiplying the decoded offset afterwards,
/// wrapping at 64 bits.
pub open spec fn spec_decode_record(bytes: Seq<u8>, pos: int, prev: Mapping, ptr_size: u64) -> Result<
    (Mapping, int),
    UnpackError,
> {
    let len = bytes.len() as int;
    if pos + 1 > len {
        Err(UnpackError::OutOfData)
    } else {
        let type_byte = bytes[pos];
        let low = type_byte & 0xF;
        let high = type_byte >> 4;
        match spec_parse_id(bytes, pos + 1, low, prev.id) {
            Err(e) => Err(e),
            Ok((id, p2)) => {
                let tmp = if high & 8 != 0 {
                    prev.offset / ptr_size
                } else {
                    prev.offset
                };
                match spec_parse_offset(bytes, p2, high & 7, tmp) {
                    Err(e) => Err(e),
                    Ok((raw, p3)) => {
                        let offset = if high & 8 != 0 {
                            u64_specs::wrapping_mul(raw, ptr_size)
                        } else {
                            raw
                        };
                        Ok((Mapping { id, offset }, p3))
                    },
                }
            },
        }
    }
}

/// What decoding `count` records in a row yields, each record relative to
/// the one before it, the first relative to `prev`.
pub open spec fn spec_decode_records(
    bytes: Seq<u8>,
    pos: int,
    prev: Mapping,
    count: nat,
    ptr_size: u64,
) -> Result<(Seq<Mapping>, int), UnpackError>
    decreases count,
{
    if count == 0 {
        Ok((Seq::empty(), pos))
    } else {
        match spec_decode_record(bytes, pos, prev, ptr_size) {
            Err(e) => Err(e),
            Ok((m, p2)) => match spec_decode_records(bytes, p2, m, (count - 1) as nat, ptr_size) {
                Err(e) => Err(e),
                Ok((rest, p3)) => Ok((seq![m] + rest, p3)),
            },
        }
    }
}

/// What decoding a whole record stream yields: `count` records starting
/// from the all-zero previous record.
pub open spec fn spec_unpack(bytes: Seq<u8>, pos: int, count: nat, ptr_size: u64) -> Result<
    (Seq<Mapping>, int),
    UnpackError,
> {
    spec_decode_records(bytes, pos, Mapping { id: 0, offset: 0 }, count, ptr_size)
}

/// Decodes an id selected by the control byte's low nibble, advancing the
/// cursor past the id's encoding; the cursor does not move on failure.
pub fn parse_id(bytes: &[u8], pos: &mut usize, low: u8, prev_id: u64) -> (r: Result<
    u64,
    UnpackError,
>)
    requires
        *old(pos) <= bytes@.len(),
    ensures
        match spec_parse_id(bytes@, *old(pos) as int, low, prev_id) {
            Ok((v, p)) => r == Ok::<u64, UnpackError>(v) && *final(pos) == p,
            Err(e) => r == Err::<u64, UnpackError>(e) && *final(pos) == *old(pos),
        },
        *final(pos) <= bytes@.len(),
{
    if low == 0 {
        match read_le_u64(bytes, pos) {
            Some(v) => Ok(v),
            None => Err(UnpackError::OutOfData),
        }
    } else if low == 1 {
        Ok(prev_id.wrapping_add(1))
    } else if low == 2 {
        match read_u8(bytes, pos) {
            Some(v) => Ok(prev_id.wrapping_add(v as u64)),
            None => Err(UnpackError::OutOfData),
        }
    } else if low == 3 {
        match read_u8(bytes, pos) {
            Some(v) => Ok(prev_id.wrapping_sub(v as u64)),
            None => Err(UnpackError::OutOfData),
        }
    } else if low == 4 {
        match read_le_u16(bytes, pos) {
            Some(v) => Ok(prev_id.wrapping_add(v as u64)),
            None => Err(UnpackError::OutOfData),
        }
    } else if low == 5 {
        match read_le_u16(bytes, pos) {
            Some(v) => Ok(prev_id.wrapping_sub(v as u64)),
            None => Err(UnpackError::OutOfData),
        }
    } else if low == 6 {
        match read_le_u16(bytes, pos) {
            Some(v) => Ok(v as u64),
            None => Err(UnpackError::OutOfData),
        }
    } else if low == 7 {
        match read_le_u32(bytes, pos) {
            Some(v) => Ok(v as u64),
            None => Err(UnpackError::OutOfData),
        }
    } else {
        Err(UnpackError::InvalidId { id: low })
    }
}

/// Decodes an offset selected by the high nibble's bits 0-2, advancing the
/// cursor past the offset's encoding; the cursor does not move on failure.
pub fn parse_offset(bytes: &[u8], pos: &mut usize, sel: u8, prev_offset: u64) -> (r: Result<
    u64,
    UnpackError,
>)
    requires
        *old(pos) <= bytes@.len(),
    ensures
        match spec_parse_offset(bytes@, *old(pos) as int, sel, prev_offset) {
            Ok((v, p)) => r == Ok::<u64, UnpackError>(v) && *final(pos) == p,
            Err(e) => r == Err::<u64, UnpackError>(e) && *final(pos) == *old(pos),
        },
        *final(pos) <= bytes@.len(),
{
    if sel == 0 {
        match read_le_u64(bytes, pos) {
            Some(v) => Ok(v),
            None => Err(UnpackError::OutOfData),
        }
    } else if sel == 1 {
        Ok(prev_offset.wrapping_add(1))
    } else if sel == 2 {
        match read_u8(bytes, pos) {
            Some(v) => Ok(prev_offset.wrapping_add(v as u64)),
            None => Err(UnpackError::OutOfData),
        }
    } else if sel == 3 {
        match read_u8(bytes, pos) {
            Some(v) => Ok(prev_offset.wrapping_sub(v as u64)),
            None => Err(UnpackError::OutOfData),
        }
    } else if sel == 4 {
        match read_le_u16(bytes, pos) {
            Some(v) => Ok(prev_offset.wrapping_add(v as u64)),
            None => Err(UnpackError::OutOfData),
        }
    } else if sel == 5 {
        match read_le_u16(bytes, pos) {
            Some(v) => Ok(prev_offset.wrapping_sub(v as u64)),
            None => Err(UnpackError::OutOfData),
        }
    } else if sel == 6 {
        match read_le_u16(bytes, pos) {
            Some(v) => Ok(v as u64),
            None => Err(UnpackError::OutOfData),
        }
    } else if sel == 7 {
        match read_le_u32(bytes, pos) {
            Some(v) => Ok(v as u64),
            None => Err(UnpackError::OutOfData),
        }
    } else {
        Err(UnpackError::InvalidOffset { offset: prev_offset })
    }
}

/// Sorts records ascending by id, keeping exactly the same records.
pub fn sort_mappings_by_id(v: &mut Vec<Mapping>)
    ensures
        spec_sorted_by_id(final(v)@),
        final(v)@.to_multiset() == old(v)@.to_multiset(),
{
    broadcast use to_multiset_update, group_to_multiset_ensures;

    let n = v.len();
    if n < 2 {
        return ;
    }
    let mut i: usize = 1;
    while i < n
        invariant
            1 <= i,
            i <= n,
            n == v@.len(),
            forall|a: int, b: int| 0 <= a <= b < i ==> v@[a].id <= v@[b].id,
            v@.to_multiset() == old(v)@.to_multiset(),
        decreases n - i,
    {
        let mut j: usize = i;
        while j > 0 && v[j - 1].id > v[j].id
            invariant
                j <= i,
                i < n,
                n == v@.len(),
                forall|a: int, b: int|
                    0 <= a <= b <= i && b != j ==> v@[a].id <= v@[b].id,
                v@.to_multiset() == old(v)@.to_multiset(),
            decreases j,
        {
            let lo = v[j - 1];
            let hi = v[j];
            let ghost before = v@;
            v[j - 1] = hi;
            v[j] = lo;
            proof {
                broadcast use vstd::multiset::group_multiset_axioms;

                let s1 = before.update(j as int - 1, hi);
                let s2 = s1.update(j as int, lo);
                assert(v@ =~= s2);
                assert(before[j as int - 1] == lo);
                to_multiset_update(before, j as int - 1, hi);
                to_multiset_update(s1, j as int, lo);
                assert(s1[j as int] == hi);
                assert(before.contains(lo));
                assert(before.contains(hi));
                vstd::seq_lib::to_multiset_contains(before, lo);
                vstd::seq_lib::to_multiset_contains(before, hi);
                assert(before.to_multiset().count(lo) > 0);
                assert(before.to_multiset().count(hi) > 0);
                assert(s2.to_multiset() == before.to_multiset().insert(hi).remove(lo).insert(
                    lo,
                ).remove(hi));
                assert(v@.to_multiset() =~= before.to_multiset());
            }
            j = j - 1;
        }
        i = i + 1;
    }
}

/// Decodes `count` records from the cursor into a table sorted ascending
/// by id. A zero pointer size is rejected up front, since the offset
/// encoding divides by it.
pub fn unpack_file(bytes: &[u8], pos: &mut usize, count: usize, ptr_size: u64) -> (r: Result<
    Vec<Mapping>,
    UnpackError,
>)
    requires
        *old(pos) <= bytes@.len(),
    ensures
        ptr_size == 0 ==> r == Err::<Vec<Mapping>, UnpackError>(UnpackError::ZeroPointerSize),
        ptr_size != 0 ==> match spec_unpack(bytes@, *old(pos) as int, count as nat, ptr_size) {
            Ok((records, p)) => r is Ok && *final(pos) == p && spec_sorted_by_id(r->Ok_0@)
                && r->Ok_0@.to_multiset() == records.to_multiset(),
            Err(e) => r == Err::<Vec<Mapping>, UnpackError>(e),
        },
        *final(pos) <= bytes@.len(),
{
    if ptr_size == 0 {
        return Err(UnpackError::ZeroPointerSize);
    }
    let mut out: Vec<Mapping> = Vec::new();
    let mut prev = Mapping { id: 0, offset: 0 };
    let mut k: usize = 0;
    let ghost total = spec_unpack(bytes@, *old(pos) as int, count as nat, ptr_size);

    while k < count
        invariant
            k <= count,
            ptr_size != 0,
            *pos <= bytes@.len(),
            out@.len() == k,
            total == spec_unpack(bytes@, *old(pos) as int, count as nat, ptr_size),
            match spec_decode_records(bytes@, *pos as int, prev, (count - k) as nat, ptr_size) {
                Ok((rest, p)) => total == Ok::<(Seq<Mapping>, int), UnpackError>((out@ + rest, p)),
                Err(e) => total == Err::<(Seq<Mapping>, int), UnpackError>(e),
            },
        decreases count - k,
    {
        let ghost pos0 = *pos as int;
        let ghost prev0 = prev;
        let ghost rem = (count - k) as nat;
        let ghost out0 = out@;

        let type_byte = match read_u8(bytes, pos) {
            Some(v) => v,
            None => {
                proof {
                    assert(spec_decode_record(bytes@, pos0, prev0, ptr_size) == Err::<
                        (Mapping, int),
                        UnpackError,
                    >(UnpackError::OutOfData));
                }
                return Err(UnpackError::OutOfData);
            },
        };
        let low = type_byte & 0xF;
        let high = type_byte >> 4;

        let id = match parse_id(bytes, pos, low, prev.id) {
            Ok(v) => v,
            Err(e) => {
                proof {
                    assert(spec_decode_record(bytes@, pos0, prev0, ptr_size) == Err::<
                        (Mapping, int),
                        UnpackError,
                    >(e));
                }
                return Err(e);
            },
        };

        let tmp = if high & 8 != 0 {
            prev.offset / ptr_size
        } else {
            prev.offset
        };

        let raw = match parse_offset(bytes, pos, high & 7, tmp) {
            Ok(v) => v,
            Err(e) => {
                proof {
                    assert(spec_decode_record(bytes@, pos0, prev0, ptr_size) == Err::<
                        (Mapping, int),
                        UnpackError,
                    >(e));
                }
                return Err(e);
            },
        };

        let offset = if high & 8 != 0 {
            raw.wrapping_mul(ptr_size)
        } else {
            raw
        };

        let m = Mapping { id, offset };
        proof {
            assert(spec_decode_record(bytes@, pos0, prev0, ptr_size) == Ok::<
                (Mapping, int),
                UnpackError,
            >((m, *pos as int)));
            assert(spec_decode_records(bytes@, pos0, prev0, rem, ptr_size) == match spec_decode_records(
                bytes@,
                *pos as int,
                m,
                (rem - 1) as nat,
                ptr_size,
            ) {
                Ok((rest, p)) => Ok::<(Seq<Mapping>, int), UnpackError>((seq![m] + rest, p)),
                Err(e) => Err::<(Seq<Mapping>, int), UnpackError>(e),
            });
        }
        out.push(m);
        proof {
            assert(out@ =~= out0.push(m));
            if let Ok((rest, p)) = spec_decode_records(
                bytes@,
                *pos as int,
                m,
                (rem - 1) as nat,
                ptr_size,
            ) {
                assert(out0 + (seq![m] + rest) =~= out@ + rest);
            }
        }
        prev = m;
        k = k + 1;
    }

    proof {
        assert(out@ + Seq::<Mapping>::empty() =~= out@);
    }
    sort_mappings_by_id(&mut out);
    Ok(out)
}

} // verus!
