//! A bounds-checked typed view over a mapped byte region.
//!
//! The region stands for the bytes of a named OS mapping; a fresh region
//! is zero-filled, as a freshly created mapping is. The typed accessors
//! validate the region's size against the record layout before reading it,
//! and decode records instead of reinterpreting raw memory.

use crate::byte_reader::spec_le_u64;
use crate::mapping::Mapping;
use vstd::prelude::*;

verus! {

/// The size of one encoded record in bytes: an 8-byte id then an 8-byte
/// offset, both little-endian.
pub const SIZE_OF_MAPPING: usize = 16;

/// A mapped byte region with its mapping identifier.
#[derive(Debug, Clone, PartialEq, Eq)]
pub struct MemoryMap {
    /// The identifier of the underlying mapping.
    pub mapping: u64,
    /// The region's bytes.
    pub bytes: Vec<u8>,
}

/// Failures of viewing a region as an array of records.
#[derive(Debug, Clone, Copy, PartialEq, Eq, Structural, Hash)]
pub enum MemoryMapCastError {
    /// The region is empty.
    ZeroSize,
    /// The region is smaller than one record.
    InsufficientSize { actual: usize },
    /// The region's size is not a whole number of records.
    NonMultipleSize { allocated_size: usize },
}

/// The record decoded from the 16 bytes at slot `k`.
pub open spec fn spec_mapping_at(bytes: Seq<u8>, k: int) -> Mapping {
    Mapping { id: spec_le_u64(bytes, 16 * k), offset: spec_le_u64(bytes, 16 * k + 8) }
}

impl MemoryMap {
    /// A fresh zero-filled region of the given size under the given
    /// mapping identifier, as a newly created mapping is.
    pub fn create(mapping: u64, size: usize) -> (r: Self)
        ensures
            r.mapping == mapping,
            r.bytes@ == Seq::new(size as nat, |i: int| 0u8),
    {
        let mut bytes: Vec<u8> = Vec::new();
        let mut i: usize = 0;
        while i < size
            invariant
                i <= size,
                bytes@ == Seq::new(i as nat, |j: int| 0u8),
            decreases size - i,
        {
            bytes.push(0);
            proof {
                assert(bytes@ =~= Seq::new((i + 1) as nat, |j: int| 0u8));
            }
            i = i + 1;
        }
        MemoryMap { mapping, bytes }
    }

    /// The identifier of the underlying mapping.
    pub fn id(&self) -> (r: u64)
        ensures
            r == self.mapping,
    {
        self.mapping
    }

    /// The region's bytes.
    pub fn as_slice(&self) -> (r: &[u8])
        ensures
            r@ == self.bytes@,
    {
        self.bytes.as_slice()
    }

    /// Overwrites one byte of the region.
    pub fn write_byte(&mut self, i: usize, value: u8)
        requires
            i < old(self).bytes@.len(),
        ensures
            final(self).bytes@ == old(self).bytes@.update(i as int, value),
            final(self).mapping == old(self).mapping,
    {
        self.bytes[i] = value;
    }

    /// Views the region as an array of records, decoding each 16-byte
    /// slot; fails exactly when the region is empty, smaller than one
    /// record, or not a whole number of records.
    pub fn as_mapping_slice(&self) -> (r: Result<Vec<Mapping>, MemoryMapCastError>)
        ensures
            self.bytes@.len() == 0 ==> r == Err::<Vec<Mapping>, MemoryMapCastError>(
                MemoryMapCastError::ZeroSize,
            ),
            0 < self.bytes@.len() < 16 ==> r == Err::<Vec<Mapping>, MemoryMapCastError>(
                MemoryMapCastError::InsufficientSize { actual: self.bytes.len() },
            ),
            self.bytes@.len() >= 16 && self.bytes@.len() % 16 != 0 ==> r == Err::<
                Vec<Mapping>,
                MemoryMapCastError,
            >(MemoryMapCastError::NonMultipleSize { allocated_size: self.bytes.len() }),
            self.bytes@.len() >= 16 && self.bytes@.len() % 16 == 0 ==> r is Ok && r->Ok_0@.len()
                == self.bytes@.len() / 16 && (forall|k: int|
                0 <= k < r->Ok_0@.len() ==> r->Ok_0@[k] == spec_mapping_at(self.bytes@, k)),
    {
        let size = self.bytes.len();
        if size == 0 {
            return Err(MemoryMapCastError::ZeroSize);
        }
        if size < SIZE_OF_MAPPING {
            return Err(MemoryMapCastError::InsufficientSize { actual: size });
        }
        if size % SIZE_OF_MAPPING != 0 {
            return Err(MemoryMapCastError::NonMultipleSize { allocated_size: size });
        }
        let count = size / SIZE_OF_MAPPING;
        proof {
            assert(count * 16 == size) by (nonlinear_arith)
                requires
                    count == size / 16,
                    size % 16 == 0,
                    size >= 16,
            ;
        }
        let mut out: Vec<Mapping> = Vec::new();
        let mut k: usize = 0;
        let mut base: usize = 0;
        let slice = self.bytes.as_slice();
        while k < count
            invariant
                k <= count,
                base == 16 * (k as int),
                count * 16 == self.bytes@.len(),
                size == self.bytes@.len(),
                slice@ == self.bytes@,
                out@.len() == k,
                forall|j: int| 0 <= j < k ==> out@[j] == spec_mapping_at(self.bytes@, j),
            decreases count - k,
        {
            let mut pos: usize = base;
            let id = crate::byte_reader::read_le_u64(slice, &mut pos).unwrap();
            let offset = crate::byte_reader::read_le_u64(slice, &mut pos).unwrap();
            out.push(Mapping { id, offset });
            k = k + 1;
            base = base + 16;
        }
        Ok(out)
    }
}

} // verus!
