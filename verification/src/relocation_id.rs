//! An id that differs per runtime flavor.

use crate::database::{DataBaseError, IdDatabase};
use crate::id::{resolve_address, spec_resolve_address};
use crate::runtime::Runtime;
use vstd::prelude::*;

verus! {

/// One id for each runtime flavor; the active flavor selects which one is
/// looked up.
#[derive(Debug, Clone, Copy, PartialEq, Eq, Structural, PartialOrd, Ord, Hash)]
pub struct RelocationID {
    /// The id for the special edition.
    pub se_id: u64,
    /// The id for the anniversary edition.
    pub ae_id: u64,
    /// The id for the virtual-reality edition.
    pub vr_id: u64,
}

/// The id the flavor selects; an undetermined flavor falls back to the
/// special-edition id, as the lenient classification does.
pub open spec fn spec_select_id(r: RelocationID, runtime: Runtime) -> u64 {
    match runtime {
        Runtime::Ae => r.ae_id,
        Runtime::Vr => r.vr_id,
        _ => r.se_id,
    }
}

impl RelocationID {
    /// A relocation id with the given per-flavor ids.
    pub fn new(se_id: u64, ae_id: u64, vr_id: u64) -> (r: Self)
        ensures
            r == (RelocationID { se_id, ae_id, vr_id }),
    {
        RelocationID { se_id, ae_id, vr_id }
    }

    /// The id the given runtime flavor selects.
    pub fn id(&self, runtime: Runtime) -> (r: u64)
        ensures
            r == spec_select_id(*self, runtime),
    {
        match runtime {
            Runtime::Ae => self.ae_id,
            Runtime::Vr => self.vr_id,
            _ => self.se_id,
        }
    }

    /// The offset stored for the selected id.
    pub fn offset(&self, db: &mut IdDatabase, runtime: Runtime) -> (r: Result<
        usize,
        DataBaseError,
    >)
        requires
            old(db).wf(),
        ensures
            final(db).wf(),
            final(db).mem_map@ == old(db).mem_map@,
            final(db).mem_map.poison == old(db).mem_map.poison,
            match r {
                Ok(off) => exists|k: int|
                    0 <= k < old(db).mem_map@.len() && old(db).mem_map@[k].id == spec_select_id(
                        *self,
                        runtime,
                    ) && off == old(db).mem_map@[k].offset as usize,
                Err(e) => (e == DataBaseError::MappingCreationFailed && old(
                    db,
                ).mem_map.poison.failed) || (e == (DataBaseError::NotFoundId {
                    id: spec_select_id(*self, runtime),
                }) && forall|k: int|
                    0 <= k < old(db).mem_map@.len() ==> old(db).mem_map@[k].id != spec_select_id(
                        *self,
                        runtime,
                    )),
            },
    {
        let id = self.id(runtime);
        db.id_to_offset(id)
    }

    /// The absolute address the selected id resolves to over the module
    /// base.
    pub fn address(&self, db: &mut IdDatabase, runtime: Runtime, base: usize) -> (r: Result<
        usize,
        DataBaseError,
    >)
        requires
            old(db).wf(),
        ensures
            final(db).wf(),
            final(db).mem_map@ == old(db).mem_map@,
            match r {
                Ok(addr) => exists|k: int|
                    0 <= k < old(db).mem_map@.len() && old(db).mem_map@[k].id == spec_select_id(
                        *self,
                        runtime,
                    ) && addr == spec_resolve_address(base, old(db).mem_map@[k].offset as usize),
                Err(e) => (e == DataBaseError::MappingCreationFailed && old(
                    db,
                ).mem_map.poison.failed) || (e == (DataBaseError::NotFoundId {
                    id: spec_select_id(*self, runtime),
                }) && forall|k: int|
                    0 <= k < old(db).mem_map@.len() ==> old(db).mem_map@[k].id != spec_select_id(
                        *self,
                        runtime,
                    )),
            },
    {
        let off = self.offset(db, runtime)?;
        Ok(resolve_address(base, off))
    }
}

} // verus!
