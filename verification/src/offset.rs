//! Raw offsets that resolve against the module base without the database.

use crate::id::{resolve_address, spec_resolve_address};
use crate::runtime::Runtime;
use vstd::prelude::*;

verus! {

/// A fixed offset into the module image.
#[derive(Debug, Clone, Copy, Default, PartialEq, Eq, Structural, PartialOrd, Ord, Hash)]
pub struct Offset {
    /// The offset value.
    pub value: usize,
}

impl Offset {
    /// An offset with the given value.
    pub fn new(offset: usize) -> (r: Self)
        ensures
            r == (Offset { value: offset }),
    {
        Offset { value: offset }
    }

    /// The offset value.
    pub fn offset(&self) -> (r: usize)
        ensures
            r == self.value,
    {
        self.value
    }

    /// The absolute address over the module base: zero stays zero.
    pub fn address(&self, base: usize) -> (r: usize)
        ensures
            r == spec_resolve_address(base, self.value),
    {
        resolve_address(base, self.value)
    }
}

/// One offset for each runtime flavor.
#[derive(Debug, Clone, Copy, PartialEq, Eq, Structural, PartialOrd, Ord, Hash)]
pub struct VariantOffset {
    /// The offset for the special edition.
    pub se_offset: u64,
    /// The offset for the anniversary edition.
    pub ae_offset: u64,
    /// The offset for the virtual-reality edition.
    pub vr_offset: u64,
}

/// The offset the flavor selects, truncated to the machine word; an
/// undetermined flavor selects 0.
pub open spec fn spec_select_offset(v: VariantOffset, runtime: Runtime) -> usize {
    match runtime {
        Runtime::Unknown => 0usize,
        Runtime::Ae => v.ae_offset as usize,
        Runtime::Se => v.se_offset as usize,
        Runtime::Vr => v.vr_offset as usize,
    }
}

impl VariantOffset {
    /// A variant offset with the given per-flavor values.
    pub fn new(se_offset: u64, ae_offset: u64, vr_offset: u64) -> (r: Self)
        ensures
            r == (VariantOffset { se_offset, ae_offset, vr_offset }),
    {
        VariantOffset { se_offset, ae_offset, vr_offset }
    }

    /// The offset the given runtime flavor selects.
    pub fn offset(&self, runtime: Runtime) -> (r: usize)
        ensures
            r == spec_select_offset(*self, runtime),
    {
        match runtime {
            Runtime::Unknown => 0,
            Runtime::Ae => #[verifier::truncate] (self.ae_offset as usize),
            Runtime::Se => #[verifier::truncate] (self.se_offset as usize),
            Runtime::Vr => #[verifier::truncate] (self.vr_offset as usize),
        }
    }

    /// The absolute address the selected offset resolves to over the
    /// module base: a zero offset stays the zero address.
    pub fn address(&self, runtime: Runtime, base: usize) -> (r: usize)
        ensures
            r == spec_resolve_address(base, spec_select_offset(*self, runtime)),
    {
        let off = self.offset(runtime);
        resolve_address(base, off)
    }
}

} // verus!
