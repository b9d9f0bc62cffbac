//! The host-module resolver: a handle to the loaded image, the parser of
//! its in-memory headers, and the per-process module state machine.
//!
//! The loaded image is taken as the byte sequence it occupies in memory;
//! parsing validates the two header magics and enumerates the named
//! sections into the module's segment table. Obtaining the handle, the
//! image bytes and the file's version resource are operating-system work
//! that the caller performs; everything decided from those plain values is
//! here.

use crate::byte_reader::{spec_le_u16, spec_le_u32, spec_le_u64};
use crate::runtime::{spec_runtime_of_minor, Runtime};
use crate::segment::{Segment, SegmentName};
use crate::version::Version;
use vstd::prelude::*;

verus! {

/// The 16-bit magic that opens a DOS header.
pub const DOS_SIGNATURE: u16 = 0x5A4D;

/// The 32-bit magic that opens the newer executable header.
pub const NT_SIGNATURE: u32 = 0x4550;

/// The section characteristic flag for executable code.
pub const SCN_MEM_EXECUTE: u32 = 0x20000000;

/// The section characteristic flag for writable memory.
pub const SCN_MEM_WRITE: u32 = 0x80000000;

/// Failures of reading the loaded image's headers.
#[derive(Debug, Clone, Copy, PartialEq, Eq, Structural, Hash)]
pub enum ModuleHandleError {
    /// No handle to the named module could be obtained.
    HandleNotFound,
    /// The image does not open with the DOS magic, or is too short to
    /// hold the DOS header.
    InvalidDosHeaderSignature { actual: u16 },
    /// The newer header is not where the DOS header points, does not open
    /// with its magic, or runs past the image.
    InvalidNtHeader64Signature { actual: u32 },
}

/// A handle to a loaded module: its base address in the process.
#[derive(Debug, Clone, Copy, PartialEq, Eq, Structural, PartialOrd, Ord, Hash)]
pub struct ModuleHandle {
    /// The module's base address; never zero.
    pub base: usize,
}

/// The fields of the newer executable header that segment loading reads.
#[derive(Debug, Clone, Copy, PartialEq, Eq, Structural, Hash)]
pub struct NtHeaderInfo {
    /// How many sections the image declares.
    pub number_of_sections: u16,
    /// Where the section table begins within the image.
    pub section_table_offset: usize,
}

/// What validating the two header magics of an image yields.
///
/// The DOS header must fill the first 64 bytes and open with its magic;
/// the 4-byte field at offset 60 then points at the newer header, whose
/// first 24 bytes (signature, file header) must lie inside the image and
/// open with the newer magic. The section table begins 24 bytes into the
/// newer header plus the declared optional-header size.
pub open spec fn spec_nt_header(image: Seq<u8>) -> Result<NtHeaderInfo, ModuleHandleError> {
    if image.len() < 64 {
        Err(ModuleHandleError::InvalidDosHeaderSignature { actual: 0 })
    } else if spec_le_u16(image, 0) != DOS_SIGNATURE {
        Err(ModuleHandleError::InvalidDosHeaderSignature { actual: spec_le_u16(image, 0) })
    } else {
        let e_lfanew = spec_le_u32(image, 60);
        if e_lfanew + 24 > image.len() {
            Err(ModuleHandleError::InvalidNtHeader64Signature { actual: 0 })
        } else if spec_le_u32(image, e_lfanew as int) != NT_SIGNATURE {
            Err(
                ModuleHandleError::InvalidNtHeader64Signature {
                    actual: spec_le_u32(image, e_lfanew as int),
                },
            )
        } else {
            let sto = e_lfanew + 24 + spec_le_u16(image, e_lfanew + 20);
            Ok(
                NtHeaderInfo {
                    number_of_sections: spec_le_u16(image, e_lfanew + 6),
                    section_table_offset: if sto > usize::MAX {
                        usize::MAX
                    } else {
                        sto as usize
                    },
                },
            )
        }
    }
}

impl ModuleHandle {
    /// A handle over a base address; a zero address is no handle.
    pub fn new(base: usize) -> (r: Result<Self, ModuleHandleError>)
        ensures
            base == 0 ==> r == Err::<ModuleHandle, ModuleHandleError>(
                ModuleHandleError::HandleNotFound,
            ),
            base != 0 ==> r == Ok::<ModuleHandle, ModuleHandleError>(ModuleHandle { base }),
    {
        if base == 0 {
            Err(ModuleHandleError::HandleNotFound)
        } else {
            Ok(ModuleHandle { base })
        }
    }

    /// The base address the handle stands for.
    pub fn as_raw(&self) -> (r: usize)
        ensures
            r == self.base,
    {
        self.base
    }

    /// Validates the image's header magics and locates its section table.
    pub fn try_as_nt_header(&self, image: &[u8]) -> (r: Result<NtHeaderInfo, ModuleHandleError>)
        ensures
            r == spec_nt_header(image@),
    {
        let len = image.len();
        if len < 64 {
            return Err(ModuleHandleError::InvalidDosHeaderSignature { actual: 0 });
        }
        let mut pos: usize = 0;
        let dos_magic = crate::byte_reader::read_le_u16(image, &mut pos).unwrap();
        if dos_magic != DOS_SIGNATURE {
            return Err(ModuleHandleError::InvalidDosHeaderSignature { actual: dos_magic });
        }
        pos = 60;
        let e_lfanew = crate::byte_reader::read_le_u32(image, &mut pos).unwrap();
        if e_lfanew as u64 + 24 > len as u64 {
            return Err(ModuleHandleError::InvalidNtHeader64Signature { actual: 0 });
        }
        pos = e_lfanew as usize;
        let nt_magic = crate::byte_reader::read_le_u32(image, &mut pos).unwrap();
        if nt_magic != NT_SIGNATURE {
            return Err(ModuleHandleError::InvalidNtHeader64Signature { actual: nt_magic });
        }
        pos = e_lfanew as usize + 6;
        let number_of_sections = crate::byte_reader::read_le_u16(image, &mut pos).unwrap();
        pos = e_lfanew as usize + 20;
        let size_of_optional_header = crate::byte_reader::read_le_u16(image, &mut pos).unwrap();
        let sto64: u64 = e_lfanew as u64 + 24 + size_of_optional_header as u64;
        let sto: usize = if sto64 > usize::MAX as u64 {
            usize::MAX
        } else {
            sto64 as usize
        };
        Ok(NtHeaderInfo { number_of_sections, section_table_offset: sto })
    }
}

/// The segment-table slot a section belongs to, by its 8-byte name (taken
/// as one little-endian word) and its characteristics: executable code,
/// import data, read-only data, writable data, exception data,
/// thread-local storage, writable code, global function ids — or none.
pub open spec fn spec_section_kind(name: u64, characteristics: u32) -> Option<usize> {
    if name == 0x747865742e && characteristics & SCN_MEM_EXECUTE != 0 {
        Some(0usize)
    } else if name == 0x61746164692e {
        Some(1usize)
    } else if name == 0x61746164722e {
        Some(2usize)
    } else if name == 0x617461642e {
        Some(3usize)
    } else if name == 0x61746164702e {
        Some(4usize)
    } else if name == 0x736c742e {
        Some(5usize)
    } else if name == 0x747865742e && characteristics & SCN_MEM_WRITE != 0 {
        Some(6usize)
    } else if name == 0x73646966672e {
        Some(7usize)
    } else {
        None
    }
}

/// The slot a section belongs to, or none.
pub fn section_kind(name: u64, characteristics: u32) -> (r: Option<usize>)
    ensures
        r == spec_section_kind(name, characteristics),
{
    if name == 0x747865742e && characteristics & SCN_MEM_EXECUTE != 0 {
        Some(0)
    } else if name == 0x61746164692e {
        Some(1)
    } else if name == 0x61746164722e {
        Some(2)
    } else if name == 0x617461642e {
        Some(3)
    } else if name == 0x61746164702e {
        Some(4)
    } else if name == 0x736c742e {
        Some(5)
    } else if name == 0x747865742e && characteristics & SCN_MEM_WRITE != 0 {
        Some(6)
    } else if name == 0x73646966672e {
        Some(7)
    } else {
        None
    }
}

/// The all-default segment table of 8 slots.
pub open spec fn spec_default_segments() -> Seq<Segment> {
    Seq::new(8, |i: int| Segment { proxy_base: 0usize, address: 0u32, size: 0u32 })
}

/// The segment table after the first `n` sections of the table at `sto`
/// have been examined: each section whose 40-byte entry lies inside the
/// image and whose name and characteristics select a slot writes that
/// slot with the module base, the section's virtual address (bytes 12-15
/// of the entry) and its raw size (bytes 16-19); later sections win.
pub open spec fn spec_segments_after(image: Seq<u8>, base: usize, sto: int, n: nat) -> Seq<Segment>
    decreases n,
{
    if n == 0 {
        spec_default_segments()
    } else {
        let prev = spec_segments_after(image, base, sto, (n - 1) as nat);
        let entry = sto + 40 * (n - 1);
        if entry + 40 <= image.len() {
            match spec_section_kind(spec_le_u64(image, entry), spec_le_u32(image, entry + 36)) {
                Some(idx) => prev.update(
                    idx as int,
                    Segment {
                        proxy_base: base,
                        address: spec_le_u32(image, entry + 12),
                        size: spec_le_u32(image, entry + 16),
                    },
                ),
                None => prev,
            }
        } else {
            prev
        }
    }
}

/// Enumerates the image's sections into the 8-slot segment table: up to 8
/// sections are examined, each matched by name and characteristics;
/// entries past the end of the image are ignored.
pub fn load_segments(handle: &ModuleHandle, image: &[u8]) -> (r: Result<
    Vec<Segment>,
    ModuleHandleError,
>)
    ensures
        match spec_nt_header(image@) {
            Err(e) => r == Err::<Vec<Segment>, ModuleHandleError>(e),
            Ok(info) => r is Ok && r->Ok_0@ =~= spec_segments_after(
                image@,
                handle.base,
                info.section_table_offset as int,
                (if info.number_of_sections > 8 {
                    8u16
                } else {
                    info.number_of_sections
                }) as nat,
            ),
        },
{
    let info = match handle.try_as_nt_header(image) {
        Ok(i) => i,
        Err(e) => {
            return Err(e);
        },
    };
    let n: u16 = if info.number_of_sections > 8 {
        8
    } else {
        info.number_of_sections
    };
    let mut segments: Vec<Segment> = Vec::new();
    let mut s: usize = 0;
    while s < 8
        invariant
            s <= 8,
            segments@ =~= spec_default_segments().subrange(0, s as int),
        decreases 8 - s,
    {
        segments.push(Segment::const_default());
        proof {
            assert(segments@ =~= spec_default_segments().subrange(0, s as int + 1));
        }
        s = s + 1;
    }
    proof {
        assert(segments@ =~= spec_default_segments());
    }

    let sto = info.section_table_offset;
    let len = image.len();
    let mut i: usize = 0;
    while i < n as usize
        invariant
            i <= n as usize,
            n <= 8,
            sto == info.section_table_offset,
            len == image@.len(),
            segments@.len() == 8,
            segments@ =~= spec_segments_after(image@, handle.base, sto as int, i as nat),
        decreases n as usize - i,
    {
        // entry offsets stay within machine range: sto <= usize::MAX and i < 8
        if sto <= len && 40 * i + 40 <= len - sto {
            let entry = sto + 40 * i;
            let mut pos: usize = entry;
            let name = crate::byte_reader::read_le_u64(image, &mut pos).unwrap();
            pos = entry + 12;
            let address = crate::byte_reader::read_le_u32(image, &mut pos).unwrap();
            let size = crate::byte_reader::read_le_u32(image, &mut pos).unwrap();
            pos = entry + 36;
            let characteristics = crate::byte_reader::read_le_u32(image, &mut pos).unwrap();
            match section_kind(name, characteristics) {
                Some(idx) => {
                    let seg = Segment::new(handle.as_raw(), address, size);
                    segments[idx] = seg;
                },
                None => {},
            }
        }
        i = i + 1;
    }
    Ok(segments)
}

/// Failures of initializing the module.
#[derive(Debug, Clone, Copy, PartialEq, Eq, Structural, Hash)]
pub enum ModuleInitError {
    /// Neither the override nor any known executable name yielded a
    /// handle.
    ModuleNameAndHandleNotFound,
    /// The image's headers could not be read.
    SegmentLoadFailed { source: ModuleHandleError },
    /// The module's version resource could not be read.
    VersionLoadFailed,
}

/// The loaded host module: its name, handle, version, flavor and segment
/// table.
#[derive(Debug, Clone, PartialEq, Eq)]
pub struct Module {
    /// Name of the module.
    pub filename: String,
    /// File path of the module.
    pub file_path: String,
    /// The 8-slot segment table.
    pub segments: Vec<Segment>,
    /// Version of the module.
    pub version: Version,
    /// Handle to the module's base.
    pub base: ModuleHandle,
    /// Runtime flavor of the module.
    pub runtime: Runtime,
}

impl Module {
    /// Well-formedness: the segment table has its 8 slots.
    pub open spec fn wf(self) -> bool {
        self.segments@.len() == 8
    }

    /// Builds the module from its plain parts: the handle, the image
    /// bytes, and the version that the file's resource carries. The
    /// segment table comes from the image's headers; the flavor comes
    /// from the version's minor component.
    pub fn init_inner(filename: String, base: ModuleHandle, image: &[u8], version: Version) -> (r:
        Result<Module, ModuleInitError>)
        ensures
            match spec_nt_header(image@) {
                Err(e) => r == Err::<Module, ModuleInitError>(
                    ModuleInitError::SegmentLoadFailed { source: e },
                ),
                Ok(info) => r is Ok && r->Ok_0.wf() && r->Ok_0.base == base && r->Ok_0.version
                    == version && r->Ok_0.runtime == spec_runtime_of_minor(version.minor)
                    && r->Ok_0.segments@ =~= spec_segments_after(
                    image@,
                    base.base,
                    info.section_table_offset as int,
                    (if info.number_of_sections > 8 {
                        8u16
                    } else {
                        info.number_of_sections
                    }) as nat,
                ),
            },
    {
        let segments = match load_segments(&base, image) {
            Ok(s) => s,
            Err(e) => {
                return Err(ModuleInitError::SegmentLoadFailed { source: e });
            },
        };
        let runtime = Runtime::from_version(&version);
        let file_path = filename.clone();
        proof {
            lemma_segments_after_len(
                image@,
                base.base,
                spec_nt_header(image@)->Ok_0.section_table_offset as int,
                (if spec_nt_header(image@)->Ok_0.number_of_sections > 8 {
                    8u16
                } else {
                    spec_nt_header(image@)->Ok_0.number_of_sections
                }) as nat,
            );
        }
        Ok(Module { filename, file_path, segments, version, base, runtime })
    }

    /// The segment in the named slot.
    pub fn segment(&self, name: SegmentName) -> (r: Segment)
        requires
            self.wf(),
            name != SegmentName::Total,
        ensures
            r == self.segments@[name.spec_index() as int],
    {
        let idx = name.as_index();
        self.segments[idx]
    }

    /// The runtime flavor.
    pub fn get_runtime(&self) -> (r: Runtime)
        ensures
            r == self.runtime,
    {
        self.runtime
    }

    /// Whether the running flavor is the anniversary edition.
    pub fn is_ae(&self) -> (r: bool)
        ensures
            r == (self.runtime == Runtime::Ae),
    {
        matches!(self.runtime, Runtime::Ae)
    }

    /// Whether the running flavor is the special edition.
    pub fn is_se(&self) -> (r: bool)
        ensures
            r == (self.runtime == Runtime::Se),
    {
        matches!(self.runtime, Runtime::Se)
    }

    /// Whether the running flavor is the virtual-reality edition.
    pub fn is_vr(&self) -> (r: bool)
        ensures
            r == (self.runtime == Runtime::Vr),
    {
        matches!(self.runtime, Runtime::Vr)
    }
}

/// The segment table always keeps its 8 slots, however many sections were
/// examined.
pub proof fn lemma_segments_after_len(image: Seq<u8>, base: usize, sto: int, n: nat)
    ensures
        spec_segments_after(image, base, sto, n).len() == 8,
    decreases n,
{
    if n > 0 {
        lemma_segments_after_len(image, base, sto, (n - 1) as nat);
    }
}

} // verus!
