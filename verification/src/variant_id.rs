//! An id with a virtual-reality-specific value.

use crate::database::{DataBaseError, IdDatabase};
use crate::id::{resolve_address, spec_resolve_address};
use crate::runtime::Runtime;
use vstd::prelude::*;

verus! {

/// Ids for the two desktop flavors and a separate value for the
/// virtual-reality edition.
#[derive(Debug, Clone, Copy, PartialEq, Eq, Structural, PartialOrd, Ord, Hash)]
pub struct VariantID {
    /// The id for the special edition.
    pub se_id: u64,
    /// The id for the anniversary edition.
    pub ae_id: u64,
    /// The value for the virtual-reality edition.
    pub vr_offset: u64,
}

/// The id the flavor selects; an undetermined flavor selects 0.
pub open spec fn spec_select_variant_id(v: VariantID, runtime: Runtime) -> u64 {
    match runtime {
        Runtime::Unknown => 0u64,
        Runtime::Ae => v.ae_id,
        Runtime::Se => v.se_id,
        Runtime::Vr => v.vr_offset,
    }
}

impl VariantID {
    /// A variant id with the given per-flavor values.
    pub fn new(se_id: u64, ae_id: u64, vr_offset: u64) -> (r: Self)
        ensures
            r == (VariantID { se_id, ae_id, vr_offset }),
    {
        VariantID { se_id, ae_id, vr_offset }
    }

    /// The offset stored for the value the flavor selects.
    pub fn offset(&self, db: &mut IdDatabase, runtime: Runtime) -> (r: Result<
        usize,
        DataBaseError,
    >)
        requires
            old(db).wf(),
        ensures
            final(db).wf(),
            final(db).mem_map@ == old(db).mem_map@,
            final(db).mem_map.poison == old(db).mem_map.poison,
            match r {
                Ok(off) => exists|k: int|
                    0 <= k < old(db).mem_map@.len() && old(db).mem_map@[k].id
                        == spec_select_variant_id(*self, runtime) && off == old(
                        db,
                    ).mem_map@[k].offset as usize,
                Err(e) => (e == DataBaseError::MappingCreationFailed && old(
                    db,
                ).mem_map.poison.failed) || (e == (DataBaseError::NotFoundId {
                    id: spec_select_variant_id(*self, runtime),
                }) && forall|k: int|
                    0 <= k < old(db).mem_map@.len() ==> old(db).mem_map@[k].id
                        != spec_select_variant_id(*self, runtime)),
            },
    {
        let id = match runtime {
            Runtime::Unknown => 0,
            Runtime::Ae => self.ae_id,
            Runtime::Se => self.se_id,
            Runtime::Vr => self.vr_offset,
        };
        db.id_to_offset(id)
    }

    /// The absolute address the selected value resolves to over the module
    /// base.
    pub fn address(&self, db: &mut IdDatabase, runtime: Runtime, base: usize) -> (r: Result<
        usize,
        DataBaseError,
    >)
        requires
            old(db).wf(),
        ensures
            final(db).wf(),
            final(db).mem_map@ == old(db).mem_map@,
            match r {
                Ok(addr) => exists|k: int|
                    0 <= k < old(db).mem_map@.len() && old(db).mem_map@[k].id
                        == spec_select_variant_id(*self, runtime) && addr == spec_resolve_address(
                        base,
                        old(db).mem_map@[k].offset as usize,
                    ),
                Err(e) => (e == DataBaseError::MappingCreationFailed && old(
                    db,
                ).mem_map.poison.failed) || (e == (DataBaseError::NotFoundId {
                    id: spec_select_variant_id(*self, runtime),
                }) && forall|k: int|
                    0 <= k < old(db).mem_map@.len() ==> old(db).mem_map@[k].id
                        != spec_select_variant_id(*self, runtime)),
            },
    {
        let off = self.offset(db, runtime)?;
        Ok(resolve_address(base, off))
    }
}

} // verus!
