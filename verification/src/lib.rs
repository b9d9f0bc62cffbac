//! Address-resolution library for a versioned host process.
//!
//! The library decodes the compact binary "address library" file format that
//! maps stable numeric identifiers to byte offsets inside a specific build of
//! a host executable, exposes the decoded table through binary-search lookups
//! guarded by a poison-aware reader-writer lock, and models the host module
//! (version, runtime flavor, segments) whose base address turns offsets into
//! absolute addresses.

pub mod byte_reader;
pub mod database;
pub mod header;
pub mod id;
pub mod mapping;
pub mod module;
pub mod module_state;
pub mod offset;
pub mod offset_to_id;
pub mod relocation;
pub mod relocation_id;
pub mod ularge_integer;
pub mod variant_id;
pub mod memory_map;
pub mod poison;
pub mod unpack;
pub mod runtime;
pub mod shared_rwlock;
pub mod segment;
pub mod version;

use vstd::prelude::*;

verus! {

} // verus!
