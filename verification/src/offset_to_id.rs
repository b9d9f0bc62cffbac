//! Reverse lookup: a copy of the table re-sorted by offset.

use crate::database::{DataBaseError, IdDatabase};
use crate::mapping::{spec_sorted_by_offset, Mapping};
use vstd::prelude::*;
use vstd::seq_lib::group_to_multiset_ensures;
use vstd::seq_lib::to_multiset_update;

verus! {

/// A copy of the table arranged by offset, answering offset-to-id lookups
/// at the same logarithmic cost; the canonical table stays untouched.
#[derive(Debug, Clone, PartialEq, Eq)]
pub struct OffsetToID {
    /// The records, sorted ascending by offset.
    pub offset_to_id: Vec<Mapping>,
}

/// Sorts records ascending by offset, keeping exactly the same records.
fn sort_mappings_by_offset(v: &mut Vec<Mapping>)
    ensures
        spec_sorted_by_offset(final(v)@),
        final(v)@.to_multiset() == old(v)@.to_multiset(),
{
    broadcast use to_multiset_update, group_to_multiset_ensures;

    let n = v.len();
    if n < 2 {
        return ;
    }
    let mut i: usize = 1;
    while i < n
        invariant
            1 <= i,
            i <= n,
            n == v@.len(),
            forall|a: int, b: int| 0 <= a <= b < i ==> v@[a].offset <= v@[b].offset,
            v@.to_multiset() == old(v)@.to_multiset(),
        decreases n - i,
    {
        let mut j: usize = i;
        while j > 0 && v[j - 1].offset > v[j].offset
            invariant
                j <= i,
                i < n,
                n == v@.len(),
                forall|a: int, b: int|
                    0 <= a <= b <= i && b != j ==> v@[a].offset <= v@[b].offset,
                v@.to_multiset() == old(v)@.to_multiset(),
            decreases j,
        {
            let lo = v[j - 1];
            let hi = v[j];
            let ghost before = v@;
            v[j - 1] = hi;
            v[j] = lo;
            proof {
                broadcast use vstd::multiset::group_multiset_axioms;

                let s1 = before.update(j as int - 1, hi);
                let s2 = s1.update(j as int, lo);
                assert(v@ =~= s2);
                assert(before[j as int - 1] == lo);
                to_multiset_update(before, j as int - 1, hi);
                to_multiset_update(s1, j as int, lo);
                assert(s1[j as int] == hi);
                assert(before.contains(lo));
                assert(before.contains(hi));
                vstd::seq_lib::to_multiset_contains(before, lo);
                vstd::seq_lib::to_multiset_contains(before, hi);
                assert(before.to_multiset().count(lo) > 0);
                assert(before.to_multiset().count(hi) > 0);
                assert(s2.to_multiset() == before.to_multiset().insert(hi).remove(lo).insert(
                    lo,
                ).remove(hi));
                assert(v@.to_multiset() =~= before.to_multiset());
            }
            j = j - 1;
        }
        i = i + 1;
    }
}

impl OffsetToID {
    /// Copies the canonical table under a shared borrow of its lock and
    /// arranges the copy by offset; the canonical table is left exactly as
    /// it was. A poisoned lock reports `Poisoned`.
    pub fn new(db: &mut IdDatabase) -> (r: Result<OffsetToID, DataBaseError>)
        requires
            old(db).wf(),
        ensures
            final(db).wf(),
            final(db).mem_map@ == old(db).mem_map@,
            final(db).mem_map.poison == old(db).mem_map.poison,
            match r {
                Ok(o) => !old(db).mem_map.poison.failed && spec_sorted_by_offset(o.offset_to_id@)
                    && o.offset_to_id@.to_multiset() == old(db).mem_map@.to_multiset(),
                Err(e) => e == DataBaseError::Poisoned && old(db).mem_map.poison.failed,
            },
    {
        let guard = match db.mem_map.read() {
            Ok(g) => g,
            Err(e) => {
                let g = e.into_inner();
                db.mem_map.drop_read(g);
                return Err(DataBaseError::Poisoned);
            },
        };
        let len = db.mem_map.len();
        let mut copy: Vec<Mapping> = Vec::new();
        let mut i: usize = 0;
        while i < len
            invariant
                i <= len,
                len == db.mem_map@.len(),
                db.mem_map.readers == 1,
                !db.mem_map.writer,
                db.mem_map@ == old(db).mem_map@,
                db.mem_map.poison == old(db).mem_map.poison,
                copy@ =~= db.mem_map@.subrange(0, i as int),
            decreases len - i,
        {
            let m = *db.mem_map.get(i);
            copy.push(m);
            proof {
                assert(copy@ =~= db.mem_map@.subrange(0, i as int + 1));
            }
            i = i + 1;
        }
        db.mem_map.drop_read(guard);
        proof {
            assert(copy@ =~= old(db).mem_map@);
        }
        sort_mappings_by_offset(&mut copy);
        Ok(OffsetToID { offset_to_id: copy })
    }

    /// Looks up the id stored for the offset by binary search: an id whose
    /// record carries exactly this offset where one is present, `None`
    /// where the offset is absent.
    pub fn get_id(&self, offset: u64) -> (r: Option<u64>)
        requires
            spec_sorted_by_offset(self.offset_to_id@),
        ensures
            match r {
                Some(id) => exists|k: int|
                    0 <= k < self.offset_to_id@.len() && self.offset_to_id@[k].offset == offset
                        && self.offset_to_id@[k].id == id,
                None => forall|k: int|
                    0 <= k < self.offset_to_id@.len() ==> self.offset_to_id@[k].offset != offset,
            },
    {
        let len = self.offset_to_id.len();
        let mut lo: usize = 0;
        let mut hi: usize = len;
        while lo < hi
            invariant
                lo <= hi <= len,
                len == self.offset_to_id@.len(),
                spec_sorted_by_offset(self.offset_to_id@),
                forall|k: int| 0 <= k < lo ==> self.offset_to_id@[k].offset < offset,
                forall|k: int| hi <= k < len ==> self.offset_to_id@[k].offset > offset,
            decreases hi - lo,
        {
            let mid = lo + (hi - lo) / 2;
            let m = &self.offset_to_id[mid];
            if m.offset < offset {
                lo = mid + 1;
            } else if m.offset > offset {
                hi = mid;
            } else {
                let found = m.id;
                proof {
                    assert(self.offset_to_id@[mid as int].offset == offset);
                }
                return Some(found);
            }
        }
        None
    }
}

} // verus!
