//! Named segments of the host executable's loaded image.

use vstd::prelude::*;

verus! {

/// One contiguous region of the loaded image.
#[derive(Debug, Clone, Copy, PartialEq, Eq, Structural, PartialOrd, Ord, Hash)]
pub struct Segment {
    /// Base address of the module the segment belongs to.
    pub proxy_base: usize,
    /// Virtual address of the segment.
    pub address: u32,
    /// Size of the segment in bytes.
    pub size: u32,
}

/// What the segment's offset computation yields: the virtual address minus
/// the base, wrapping at the machine word.
pub open spec fn spec_segment_offset(s: Segment) -> usize {
    vstd::wrapping::usize_specs::wrapping_sub(s.address as usize, s.proxy_base)
}

impl Segment {
    /// A segment with the given base, virtual address and size.
    pub fn new(proxy_base: usize, address: u32, size: u32) -> (r: Self)
        ensures
            r == (Segment { proxy_base, address, size }),
    {
        Self { proxy_base, address, size }
    }

    /// The all-zero segment.
    pub fn const_default() -> (r: Self)
        ensures
            r == (Segment { proxy_base: 0usize, address: 0u32, size: 0u32 }),
    {
        Self { proxy_base: 0, address: 0, size: 0 }
    }

    /// The segment's offset from its module base, wrapping at the machine
    /// word.
    pub fn offset(&self) -> (r: usize)
        ensures
            r == spec_segment_offset(*self),
    {
        (self.address as usize).wrapping_sub(self.proxy_base)
    }
}

/// The named sections the resolver distinguishes.
#[derive(Debug, Clone, Copy, PartialEq, Eq, Structural, PartialOrd, Ord, Hash)]
pub enum SegmentName {
    /// Executable code.
    Textx,
    /// Import tables.
    Idata,
    /// Read-only data.
    Rdata,
    /// Writable data.
    Data,
    /// Exception-handling metadata.
    Pdata,
    /// Thread-local storage.
    Tls,
    /// Writable code.
    Textw,
    /// Global function identifiers.
    Gfids,
    /// The number of named sections.
    Total,
}

impl Default for SegmentName {
    fn default() -> (r: Self)
        ensures
            r == SegmentName::Textx,
    {
        SegmentName::Textx
    }
}

impl SegmentName {
    /// The index of this section in a module's segment table.
    pub fn as_index(&self) -> (r: usize)
        ensures
            r == self.spec_index(),
            r <= 8,
    {
        match self {
            SegmentName::Textx => 0,
            SegmentName::Idata => 1,
            SegmentName::Rdata => 2,
            SegmentName::Data => 3,
            SegmentName::Pdata => 4,
            SegmentName::Tls => 5,
            SegmentName::Textw => 6,
            SegmentName::Gfids => 7,
            SegmentName::Total => 8,
        }
    }

    /// The index each named section occupies.
    pub open spec fn spec_index(self) -> usize {
        match self {
            SegmentName::Textx => 0usize,
            SegmentName::Idata => 1usize,
            SegmentName::Rdata => 2usize,
            SegmentName::Data => 3usize,
            SegmentName::Pdata => 4usize,
            SegmentName::Tls => 5usize,
            SegmentName::Textw => 6usize,
            SegmentName::Gfids => 7usize,
            SegmentName::Total => 8usize,
        }
    }
}

} // verus!
