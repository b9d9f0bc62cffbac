//! The id-to-offset lookup database decoded from an address-library file.
//!
//! Loading decodes the header, requires the file's embedded version to be
//! the live module's version, and fills the shared table exactly when no
//! other process has created it yet; the table then answers id lookups by
//! binary search under the shared lock.

use crate::header::{spec_decode_header, Header, HeaderError};
use crate::mapping::{spec_sorted_by_id, Mapping};
use crate::runtime::Runtime;
use crate::shared_rwlock::SharedRwLock;
use crate::unpack::{spec_unpack, unpack_file, UnpackError};
use crate::version::Version;
use vstd::prelude::*;
use vstd::seq_lib::group_to_multiset_ensures;

verus! {

/// Failures of loading the database or looking an id up.
#[derive(Debug, Clone, PartialEq, Eq)]
pub enum DataBaseError {
    /// The id is absent from the table, so the caller is incompatible
    /// with the running build.
    NotFoundId { id: u64 },
    /// The file's embedded version differs from the live module's version.
    VersionMismatch { expected: Version, actual: Version },
    /// The shared table could not be reached.
    MappingCreationFailed,
    /// No address-library file was found at the path.
    AddressLibraryNotFound { path: String },
    /// The record stream could not be decoded.
    FailedUnpackFile { source: UnpackError },
    /// The header could not be decoded.
    HeaderParseError { source: HeaderError },
    /// A holder of the database lock failed inside its critical section.
    Poisoned,
}

/// The error of the header-and-version stage of a load, where that stage
/// fails.
pub open spec fn spec_header_outcome(bytes: Seq<u8>, expected: Version, fmt: u8) -> Option<
    DataBaseError,
> {
    match spec_decode_header(bytes, 0, fmt) {
        Err(e) => Some(DataBaseError::HeaderParseError { source: e }),
        Ok((h, p)) => if h.version != expected {
            Some(DataBaseError::VersionMismatch { expected, actual: h.version })
        } else {
            None
        },
    }
}

/// The error of a whole decoding load, where it fails.
pub open spec fn spec_load_outcome(bytes: Seq<u8>, expected: Version, fmt: u8) -> Option<
    DataBaseError,
> {
    match spec_header_outcome(bytes, expected, fmt) {
        Some(e) => Some(e),
        None => {
            let (h, p) = spec_decode_header(bytes, 0, fmt)->Ok_0;
            if h.pointer_size == 0 {
                Some(DataBaseError::FailedUnpackFile { source: UnpackError::ZeroPointerSize })
            } else {
                match spec_unpack(bytes, p, h.address_count as nat, h.pointer_size as u64) {
                    Err(e) => Some(DataBaseError::FailedUnpackFile { source: e }),
                    Ok(_) => None,
                }
            }
        },
    }
}

/// The records a successful decoding load yields, in decode order.
pub open spec fn spec_records(bytes: Seq<u8>, fmt: u8) -> Seq<Mapping> {
    let (h, p) = spec_decode_header(bytes, 0, fmt)->Ok_0;
    spec_unpack(bytes, p, h.address_count as nat, h.pointer_size as u64)->Ok_0.0
}

/// The record count a successful decoding load yields.
pub open spec fn spec_record_count(bytes: Seq<u8>, fmt: u8) -> nat {
    spec_decode_header(bytes, 0, fmt)->Ok_0.0.address_count as nat
}

/// Decoding yields exactly as many records as were asked for, where it
/// succeeds.
pub proof fn lemma_decode_records_len(
    bytes: Seq<u8>,
    pos: int,
    prev: Mapping,
    count: nat,
    ptr_size: u64,
)
    ensures
        match crate::unpack::spec_decode_records(bytes, pos, prev, count, ptr_size) {
            Ok((records, p)) => records.len() == count,
            Err(_) => true,
        },
    decreases count,
{
    if count > 0 {
        match crate::unpack::spec_decode_record(bytes, pos, prev, ptr_size) {
            Ok((m, p2)) => {
                lemma_decode_records_len(bytes, p2, m, (count - 1) as nat, ptr_size);
            },
            Err(_) => {},
        }
    }
}

/// The database: the decoded table, sorted ascending by id, behind the
/// shared lock.
pub struct IdDatabase {
    /// The shared table of records.
    pub mem_map: SharedRwLock<Mapping>,
}

impl IdDatabase {
    /// Well-formedness: the lock is idle and the table is sorted by id.
    pub open spec fn wf(self) -> bool {
        &&& self.mem_map.wf()
        &&& self.mem_map.readers == 0
        &&& !self.mem_map.writer
        &&& spec_sorted_by_id(self.mem_map@)
    }

    /// Decodes a database from the bytes of an address-library file: the
    /// header must carry the expected format version and the live module's
    /// version; the records are then decoded and sorted by id. Nothing is
    /// populated on any failure.
    pub fn from_bin(bytes: &[u8], expected_version: &Version, expected_fmt_ver: u8) -> (r: Result<
        IdDatabase,
        DataBaseError,
    >)
        ensures
            match spec_load_outcome(bytes@, *expected_version, expected_fmt_ver) {
                Some(e) => r == Err::<IdDatabase, DataBaseError>(e),
                None => r is Ok && r->Ok_0.wf() && !r->Ok_0.mem_map.poison.failed
                    && r->Ok_0.mem_map@.to_multiset() == spec_records(
                    bytes@,
                    expected_fmt_ver,
                ).to_multiset() && r->Ok_0.mem_map@.len() == spec_record_count(
                    bytes@,
                    expected_fmt_ver,
                ),
            },
    {
        broadcast use group_to_multiset_ensures;

        let mut pos: usize = 0;
        let header = match Header::from_reader(bytes, &mut pos, expected_fmt_ver) {
            Ok(h) => h,
            Err(e) => {
                return Err(DataBaseError::HeaderParseError { source: e });
            },
        };
        if !(header.version == *expected_version) {
            return Err(
                DataBaseError::VersionMismatch {
                    expected: *expected_version,
                    actual: header.version,
                },
            );
        }
        let count = header.address_count();
        let ptr_size = header.pointer_size();
        let table = match unpack_file(bytes, &mut pos, count, ptr_size) {
            Ok(t) => t,
            Err(e) => {
                return Err(DataBaseError::FailedUnpackFile { source: e });
            },
        };
        proof {
            lemma_decode_records_len(
                bytes@,
                spec_decode_header(bytes@, 0, expected_fmt_ver)->Ok_0.1,
                Mapping { id: 0, offset: 0 },
                count as nat,
                ptr_size,
            );
            table@.to_multiset_ensures();
            spec_records(bytes@, expected_fmt_ver).to_multiset_ensures();
            assert(table@.len() == spec_records(bytes@, expected_fmt_ver).len());
        }
        Ok(IdDatabase { mem_map: SharedRwLock::new(table) })
    }

    /// Attaches to a table another process already decoded and sorted, or
    /// decodes it from the file bytes where none exists yet. The header
    /// and version checks run either way; the second component says
    /// whether this call decoded the records.
    pub fn load(
        version: &Version,
        runtime: Runtime,
        bytes: &[u8],
        existing: Option<Vec<Mapping>>,
    ) -> (r: Result<(IdDatabase, bool), DataBaseError>)
        requires
            existing is Some ==> spec_sorted_by_id(existing->0@),
        ensures
            ({
                let fmt = if runtime == Runtime::Ae {
                    2u8
                } else {
                    1u8
                };
                match existing {
                    Some(table) => match spec_header_outcome(bytes@, *version, fmt) {
                        Some(e) => r == Err::<(IdDatabase, bool), DataBaseError>(e),
                        None => r is Ok && !r->Ok_0.1 && r->Ok_0.0.wf() && r->Ok_0.0.mem_map@
                            == table@ && !r->Ok_0.0.mem_map.poison.failed,
                    },
                    None => match spec_load_outcome(bytes@, *version, fmt) {
                        Some(e) => r == Err::<(IdDatabase, bool), DataBaseError>(e),
                        None => r is Ok && r->Ok_0.1 && r->Ok_0.0.wf()
                            && !r->Ok_0.0.mem_map.poison.failed && r->Ok_0.0.mem_map@.to_multiset()
                            == spec_records(bytes@, fmt).to_multiset() && r->Ok_0.0.mem_map@.len()
                            == spec_record_count(bytes@, fmt),
                    },
                }
            }),
    {
        let fmt = runtime.expected_format_version();
        match existing {
            Some(table) => {
                let mut pos: usize = 0;
                let header = match Header::from_reader(bytes, &mut pos, fmt) {
                    Ok(h) => h,
                    Err(e) => {
                        return Err(DataBaseError::HeaderParseError { source: e });
                    },
                };
                if !(header.version == *version) {
                    return Err(
                        DataBaseError::VersionMismatch {
                            expected: *version,
                            actual: header.version,
                        },
                    );
                }
                Ok((IdDatabase { mem_map: SharedRwLock::new(table) }, false))
            },
            None => {
                let db = Self::from_bin(bytes, version, fmt)?;
                Ok((db, true))
            },
        }
    }

    /// Looks the id up by binary search under a shared borrow of the lock:
    /// the exact stored offset where the id is present, `NotFoundId` where
    /// it is absent, and `MappingCreationFailed` where the lock is
    /// poisoned. The table is left untouched.
    pub fn id_to_offset(&mut self, id: u64) -> (r: Result<usize, DataBaseError>)
        requires
            old(self).wf(),
        ensures
            final(self).wf(),
            final(self).mem_map@ == old(self).mem_map@,
            final(self).mem_map.poison == old(self).mem_map.poison,
            match r {
                Ok(off) => !old(self).mem_map.poison.failed && exists|k: int|
                    0 <= k < old(self).mem_map@.len() && old(self).mem_map@[k].id == id && off
                        == old(self).mem_map@[k].offset as usize,
                Err(e) => (e == DataBaseError::MappingCreationFailed && old(
                    self,
                ).mem_map.poison.failed) || (e == (DataBaseError::NotFoundId { id }) && !old(
                    self,
                ).mem_map.poison.failed && forall|k: int|
                    0 <= k < old(self).mem_map@.len() ==> old(self).mem_map@[k].id != id),
            },
    {
        let guard = match self.mem_map.read() {
            Ok(g) => g,
            Err(e) => {
                let g = e.into_inner();
                self.mem_map.drop_read(g);
                return Err(DataBaseError::MappingCreationFailed);
            },
        };

        let len = self.mem_map.len();
        let mut lo: usize = 0;
        let mut hi: usize = len;
        while lo < hi
            invariant
                lo <= hi <= len,
                len == self.mem_map@.len(),
                self.mem_map.readers == 1,
                !self.mem_map.writer,
                self.mem_map@ == old(self).mem_map@,
                self.mem_map.poison == old(self).mem_map.poison,
                !old(self).mem_map.poison.failed,
                spec_sorted_by_id(self.mem_map@),
                forall|k: int| 0 <= k < lo ==> self.mem_map@[k].id < id,
                forall|k: int| hi <= k < len ==> self.mem_map@[k].id > id,
            decreases hi - lo,
        {
            let mid = lo + (hi - lo) / 2;
            let m = self.mem_map.get(mid);
            if m.id < id {
                lo = mid + 1;
            } else if m.id > id {
                hi = mid;
            } else {
                let off = #[verifier::truncate] (m.offset as usize);
                proof {
                    assert(exists|k: int|
                        0 <= k < old(self).mem_map@.len() && old(self).mem_map@[k].id == id && off
                            == old(self).mem_map@[k].offset as usize) by {
                        assert(old(self).mem_map@[mid as int].id == id);
                    }
                }
                self.mem_map.drop_read(guard);
                return Ok(off);
            }
        }
        self.mem_map.drop_read(guard);
        Err(DataBaseError::NotFoundId { id })
    }
}

/// The path of the address-library file for a version and flavor:
/// `Data/SKSE/Plugins/version-<version>.bin`, with a `lib` infix before
/// the dash for the anniversary edition.
pub open spec fn spec_bin_file_path_chars(v: Version, runtime: Runtime) -> Seq<char> {
    ("Data/SKSE/Plugins/version")@ + (if runtime == Runtime::Ae {
        ("lib")@
    } else {
        Seq::<char>::empty()
    }) + ("-")@ + crate::version::spec_version_chars(v) + (".bin")@
}

/// The path of the address-library file for a version and flavor.
pub fn bin_file_path(version: &Version, runtime: Runtime) -> (r: String)
    ensures
        r@ =~= spec_bin_file_path_chars(*version, runtime),
{
    let mut s = String::from_str("Data/SKSE/Plugins/version");
    if matches!(runtime, Runtime::Ae) {
        s.append("lib");
    }
    s.append("-");
    let ver = version.to_version_string();
    s.append(ver.as_str());
    s.append(".bin");
    s
}

/// The name of the shared region for a version: a fixed prefix and the
/// version's canonical string, so every process using the same version
/// derives the same name.
pub open spec fn spec_shared_memory_name_chars(v: Version) -> Seq<char> {
    ("CommonLibSSEOffsets-v2-")@ + crate::version::spec_version_chars(v)
}

/// The name of the shared region for a version.
pub fn shared_memory_name(version: &Version) -> (r: String)
    ensures
        r@ =~= spec_shared_memory_name_chars(*version),
{
    let mut s = String::from_str("CommonLibSSEOffsets-v2-");
    let ver = version.to_version_string();
    s.append(ver.as_str());
    s
}

/// Law: the decoded table is a function of the file bytes alone. Any two
/// tables whose records are exactly the decoded records and which are
/// sorted by id hold the same records; where no id repeats, they are the
/// same table, element for element — so whichever process decodes the
/// file first, every process observes the same table.
pub proof fn lemma_decode_deterministic(t1: Seq<Mapping>, t2: Seq<Mapping>, records: Seq<Mapping>)
    requires
        t1.to_multiset() == records.to_multiset(),
        t2.to_multiset() == records.to_multiset(),
        spec_sorted_by_id(t1),
        spec_sorted_by_id(t2),
        forall|i: int, j: int|
            0 <= i < records.len() && 0 <= j < records.len() && i != j ==> records[i].id
                != records[j].id,
    ensures
        t1 =~= t2,
{
    broadcast use group_to_multiset_ensures;
    broadcast use vstd::multiset::group_multiset_axioms;

    let leq = |a: Mapping, b: Mapping| a.id < b.id || (a.id == b.id && a.offset <= b.offset);
    assert(vstd::relations::total_ordering(leq));
    lemma_table_unique_ids(t1, records);
    lemma_table_unique_ids(t2, records);
    assert(vstd::relations::sorted_by(t1, leq));
    assert(vstd::relations::sorted_by(t2, leq));
    vstd::seq_lib::lemma_sorted_unique(t1, t2, leq);
}

/// A table holding exactly the records of a stream without repeated ids
/// has no repeated ids itself.
proof fn lemma_table_unique_ids(t: Seq<Mapping>, records: Seq<Mapping>)
    requires
        t.to_multiset() == records.to_multiset(),
        forall|i: int, j: int|
            0 <= i < records.len() && 0 <= j < records.len() && i != j ==> records[i].id
                != records[j].id,
    ensures
        forall|i: int, j: int| 0 <= i < t.len() && 0 <= j < t.len() && i != j ==> t[i] != t[j],
        forall|i: int, j: int|
            0 <= i < t.len() && 0 <= j < t.len() && i != j ==> t[i].id != t[j].id,
{
    broadcast use group_to_multiset_ensures;
    broadcast use vstd::multiset::group_multiset_axioms;

    assert forall|i: int, j: int|
        0 <= i < t.len() && 0 <= j < t.len() && i != j implies t[i].id != t[j].id by {
        if t[i].id == t[j].id {
            if t[i] == t[j] {
                // the same record twice in t means its count is at least 2,
                // which no duplicate-free stream allows
                let sub = t.remove(i);
                assert(sub.to_multiset() == t.to_multiset().remove(t[i]));
                let j2 = if j < i {
                    j
                } else {
                    j - 1
                };
                assert(sub[j2] == t[j]);
                assert(sub.contains(t[j]));
                vstd::seq_lib::to_multiset_contains(sub, t[j]);
                assert(t.to_multiset().count(t[i]) >= 2);
                lemma_multiset_count_le_distinct(records, t[i]);
                assert(records.to_multiset().count(t[i]) <= 1);
            } else {
                // two different records with one id would both occur in the
                // stream, whose ids do not repeat
                vstd::seq_lib::to_multiset_contains(t, t[i]);
                vstd::seq_lib::to_multiset_contains(t, t[j]);
                vstd::seq_lib::to_multiset_contains(records, t[i]);
                vstd::seq_lib::to_multiset_contains(records, t[j]);
                let ri = choose|k: int| 0 <= k < records.len() && records[k] == t[i];
                let rj = choose|k: int| 0 <= k < records.len() && records[k] == t[j];
                assert(records[ri].id == records[rj].id && ri != rj);
            }
        }
    }
}

/// In a sequence without repeated ids, no element's count exceeds one.
proof fn lemma_multiset_count_le_distinct(s: Seq<Mapping>, m: Mapping)
    requires
        forall|i: int, j: int|
            0 <= i < s.len() && 0 <= j < s.len() && i != j ==> s[i].id != s[j].id,
    ensures
        s.to_multiset().count(m) <= 1,
    decreases s.len(),
{
    broadcast use group_to_multiset_ensures;
    broadcast use vstd::multiset::group_multiset_axioms;

    if s.len() > 0 {
        let rest = s.drop_first();
        assert(forall|i: int, j: int|
            0 <= i < rest.len() && 0 <= j < rest.len() && i != j ==> rest[i].id != rest[j].id);
        lemma_multiset_count_le_distinct(rest, m);
        assert(s =~= seq![s[0]] + rest);
        vstd::seq_lib::to_multiset_contains(rest, s[0]);
        if rest.contains(s[0]) {
            let k = choose|k: int| 0 <= k < rest.len() && rest[k] == s[0];
            assert(s[0].id == rest[k].id && s[k + 1] == rest[k]);
            assert(false);
        }
        assert(s.drop_first() =~= s.remove(0));
        assert(s.remove(0).to_multiset() == s.to_multiset().remove(s[0]));
        if m == s[0] {
            assert(rest.to_multiset().count(m) == 0);
            assert(s.to_multiset().count(m) <= 1);
        } else {
            assert(s.to_multiset().count(m) == rest.to_multiset().count(m));
        }
    }
}

} // verus!
