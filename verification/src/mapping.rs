//! The atomic unit of the lookup table: one id paired with one offset.

use vstd::prelude::*;

verus! {

/// One record of the lookup table: a stable numeric id and the byte offset
/// it maps to in the described build.
#[derive(Debug, Clone, Copy, PartialEq, Eq, Structural, PartialOrd, Ord, Hash)]
pub struct Mapping {
    /// The stable identifier.
    pub id: u64,
    /// The byte offset within the module image.
    pub offset: u64,
}

/// Whether the records are sorted ascending by id.
pub open spec fn spec_sorted_by_id(s: Seq<Mapping>) -> bool {
    forall|i: int, j: int| 0 <= i <= j < s.len() ==> s[i].id <= s[j].id
}

/// Whether the records are sorted ascending by offset.
pub open spec fn spec_sorted_by_offset(s: Seq<Mapping>) -> bool {
    forall|i: int, j: int| 0 <= i <= j < s.len() ==> s[i].offset <= s[j].offset
}

} // verus!
