//! Plain ids that resolve to offsets and absolute addresses through the
//! database.

use crate::database::{DataBaseError, IdDatabase};
use vstd::prelude::*;
use vstd::wrapping::usize_specs;

verus! {

/// The known encodings of the address-library file.
#[derive(Debug, Clone, Copy, PartialEq, Eq, Structural, PartialOrd, Ord, Hash)]
pub enum Format {
    /// The special-edition encoding, format version 1.
    SSEv1,
    /// The anniversary-edition encoding, format version 2.
    SSEv2,
    /// The virtual-reality encoding.
    VR,
}

/// The absolute address an offset yields over a module base: zero stays
/// zero, anything else is the base plus the offset, wrapping at the
/// machine word.
pub open spec fn spec_resolve_address(base: usize, offset: usize) -> usize {
    if offset == 0 {
        0usize
    } else {
        usize_specs::wrapping_add(base, offset)
    }
}

/// Combines a module base with a resolved offset: zero offsets resolve to
/// the zero address.
pub fn resolve_address(base: usize, offset: usize) -> (r: usize)
    ensures
        r == spec_resolve_address(base, offset),
{
    if offset == 0 {
        0
    } else {
        base.wrapping_add(offset)
    }
}

/// An id of the address library.
#[derive(Debug, Clone, Copy, Default, PartialEq, Eq, Structural, PartialOrd, Ord, Hash)]
pub struct ID {
    /// The raw id value.
    pub value: u64,
}

impl ID {
    /// An id with the given value.
    pub fn new(id: u64) -> (r: Self)
        ensures
            r == (ID { value: id }),
    {
        ID { value: id }
    }

    /// The offset stored for this id, looked up in the database.
    pub fn offset(&self, db: &mut IdDatabase) -> (r: Result<usize, DataBaseError>)
        requires
            old(db).wf(),
        ensures
            final(db).wf(),
            final(db).mem_map@ == old(db).mem_map@,
            final(db).mem_map.poison == old(db).mem_map.poison,
            match r {
                Ok(off) => exists|k: int|
                    0 <= k < old(db).mem_map@.len() && old(db).mem_map@[k].id == self.value && off
                        == old(db).mem_map@[k].offset as usize,
                Err(e) => (e == DataBaseError::MappingCreationFailed && old(
                    db,
                ).mem_map.poison.failed) || (e == (DataBaseError::NotFoundId { id: self.value })
                    && forall|k: int|
                    0 <= k < old(db).mem_map@.len() ==> old(db).mem_map@[k].id != self.value),
            },
    {
        db.id_to_offset(self.value)
    }

    /// The absolute address this id resolves to over the module base.
    pub fn address(&self, db: &mut IdDatabase, base: usize) -> (r: Result<usize, DataBaseError>)
        requires
            old(db).wf(),
        ensures
            final(db).wf(),
            final(db).mem_map@ == old(db).mem_map@,
            match r {
                Ok(addr) => exists|k: int|
                    0 <= k < old(db).mem_map@.len() && old(db).mem_map@[k].id == self.value && addr
                        == spec_resolve_address(base, old(db).mem_map@[k].offset as usize),
                Err(e) => (e == DataBaseError::MappingCreationFailed && old(
                    db,
                ).mem_map.poison.failed) || (e == (DataBaseError::NotFoundId { id: self.value })
                    && forall|k: int|
                    0 <= k < old(db).mem_map@.len() ==> old(db).mem_map@[k].id != self.value),
            },
    {
        let off = self.offset(db)?;
        Ok(resolve_address(base, off))
    }
}

} // verus!
