//! Decoder for the fixed-field header of an address-library file.

use crate::byte_reader::{read_le_u32, spec_le_u32};
use crate::version::Version;
use vstd::prelude::*;

verus! {

/// The header of an address-library file: the product version the file was
/// built for, the pointer size of that build, and how many records follow.
#[derive(Debug, Clone, Copy, PartialEq, Eq, Structural, Hash)]
pub struct Header {
    /// The product version embedded in the file.
    pub version: Version,
    /// The size of pointers in the described build, in bytes.
    pub pointer_size: u32,
    /// The number of (id, offset) records that follow the header.
    pub address_count: u32,
}

/// Failures of decoding a header, one per field read, plus the format
/// mismatch.
#[derive(Debug, Clone, Copy, PartialEq, Eq, Structural, Hash)]
pub enum HeaderError {
    /// The format version field ran past the end of the input.
    ReadFormatVersion,
    /// The format version differs from the one the caller expected.
    UnexpectedFormat { expected: u8, actual_format: i32 },
    /// The 16-byte version quad ran past the end of the input.
    ReadVersion,
    /// The name length field ran past the end of the input.
    ReadNameLength,
    /// Skipping the name would move before the start of the input.
    SeekAfterNameLength,
    /// The pointer size field ran past the end of the input.
    ReadPointerSize,
    /// The record count field ran past the end of the input.
    ReadAddressCount,
}

/// What decoding a header at `pos` yields: the header and the position of
/// the first record byte, or the error of the field that failed.
///
/// The layout is: 4-byte format version (which must equal the expected one),
/// 4 little-endian 32-bit version components each truncated to 16 bits, a
/// 4-byte name length followed by that many name bytes (skipped, clamped to
/// the end of the input; a negative length that would move before the start
/// fails), a 4-byte pointer size and a 4-byte record count.
pub open spec fn spec_decode_header(bytes: Seq<u8>, pos: int, expected_fmt_ver: u8) -> Result<
    (Header, int),
    HeaderError,
> {
    let len = bytes.len() as int;
    if pos + 4 > len {
        Err(HeaderError::ReadFormatVersion)
    } else {
        let format = spec_le_u32(bytes, pos) as i32;
        if format != expected_fmt_ver as i32 {
            Err(HeaderError::UnexpectedFormat { expected: expected_fmt_ver, actual_format: format })
        } else if pos + 20 > len {
            Err(HeaderError::ReadVersion)
        } else {
            let version = Version {
                major: spec_le_u32(bytes, pos + 4) as u16,
                minor: spec_le_u32(bytes, pos + 8) as u16,
                patch: spec_le_u32(bytes, pos + 12) as u16,
                build: spec_le_u32(bytes, pos + 16) as u16,
            };
            if pos + 24 > len {
                Err(HeaderError::ReadNameLength)
            } else {
                let name_len = spec_le_u32(bytes, pos + 20) as i32;
                let target = pos + 24 + name_len;
                if target < 0 {
                    Err(HeaderError::SeekAfterNameLength)
                } else {
                    let p1 = if target > len {
                        len
                    } else {
                        target
                    };
                    if p1 + 4 > len {
                        Err(HeaderError::ReadPointerSize)
                    } else if p1 + 8 > len {
                        Err(HeaderError::ReadAddressCount)
                    } else {
                        Ok(
                            (
                                Header {
                                    version,
                                    pointer_size: spec_le_u32(bytes, p1),
                                    address_count: spec_le_u32(bytes, p1 + 4),
                                },
                                p1 + 8,
                            ),
                        )
                    }
                }
            }
        }
    }
}

impl Header {
    /// A header with the given version, pointer size and record count.
    pub fn new(version: Version, pointer_size: u32, address_count: u32) -> (r: Self)
        ensures
            r == (Header { version, pointer_size, address_count }),
    {
        Self { version, pointer_size, address_count }
    }

    /// The number of records the file declares.
    pub fn address_count(&self) -> (r: usize)
        ensures
            r == self.address_count as usize,
    {
        self.address_count as usize
    }

    /// The pointer size of the described build, in bytes.
    pub fn pointer_size(&self) -> (r: u64)
        ensures
            r == self.pointer_size as u64,
    {
        self.pointer_size as u64
    }

    /// Decodes a header from the bytes at the cursor, leaving the cursor at
    /// the first record byte on success.
    pub fn from_reader(bytes: &[u8], pos: &mut usize, expected_fmt_ver: u8) -> (r: Result<
        Self,
        HeaderError,
    >)
        requires
            *old(pos) <= bytes@.len(),
        ensures
            match spec_decode_header(bytes@, *old(pos) as int, expected_fmt_ver) {
                Ok((h, p)) => r == Ok::<Header, HeaderError>(h) && *final(pos) == p,
                Err(e) => r == Err::<Header, HeaderError>(e),
            },
            *final(pos) <= bytes@.len(),
    {
        let format = match read_le_u32(bytes, pos) {
            Some(v) => v,
            None => {
                return Err(HeaderError::ReadFormatVersion);
            },
        };
        if format as i32 != expected_fmt_ver as i32 {
            return Err(
                HeaderError::UnexpectedFormat {
                    expected: expected_fmt_ver,
                    actual_format: format as i32,
                },
            );
        }
        let major = match read_le_u32(bytes, pos) {
            Some(v) => v,
            None => {
                return Err(HeaderError::ReadVersion);
            },
        };
        let minor = match read_le_u32(bytes, pos) {
            Some(v) => v,
            None => {
                return Err(HeaderError::ReadVersion);
            },
        };
        let patch = match read_le_u32(bytes, pos) {
            Some(v) => v,
            None => {
                return Err(HeaderError::ReadVersion);
            },
        };
        let build = match read_le_u32(bytes, pos) {
            Some(v) => v,
            None => {
                return Err(HeaderError::ReadVersion);
            },
        };
        let version = Version::new(major as u16, minor as u16, patch as u16, build as u16);

        let name_len = match read_le_u32(bytes, pos) {
            Some(v) => v as i32,
            None => {
                return Err(HeaderError::ReadNameLength);
            },
        };
        let target: i128 = (*pos as i128) + (name_len as i128);
        if target < 0 {
            return Err(HeaderError::SeekAfterNameLength);
        }
        let len = bytes.len();
        if target > len as i128 {
            *pos = len;
        } else {
            *pos = target as usize;
        }

        let pointer_size = match read_le_u32(bytes, pos) {
            Some(v) => v,
            None => {
                return Err(HeaderError::ReadPointerSize);
            },
        };
        let address_count = match read_le_u32(bytes, pos) {
            Some(v) => v,
            None => {
                return Err(HeaderError::ReadAddressCount);
            },
        };

        Ok(Header { version, pointer_size, address_count })
    }
}

impl Default for Header {
    fn default() -> (r: Self)
        ensures
            r == (Header {
                version: Version { major: 0u16, minor: 0u16, patch: 0u16, build: 0u16 },
                pointer_size: 0u32,
                address_count: 0u32,
            }),
    {
        Header { version: Version::const_default(), pointer_size: 0, address_count: 0 }
    }
}

/// The four 32-bit little-endian integers held by 16 bytes.
pub fn u8_to_le_u32_array(input: [u8; 16]) -> (r: [u32; 4])
    ensures
        r[0] == spec_le_u32(input@, 0),
        r[1] == spec_le_u32(input@, 4),
        r[2] == spec_le_u32(input@, 8),
        r[3] == spec_le_u32(input@, 12),
{
    let mut pos: usize = 0;
    let slice: &[u8] = &input;
    let a = read_le_u32(slice, &mut pos).unwrap();
    let b = read_le_u32(slice, &mut pos).unwrap();
    let c = read_le_u32(slice, &mut pos).unwrap();
    let d = read_le_u32(slice, &mut pos).unwrap();
    [a, b, c, d]
}

/// Each 32-bit integer truncated to its low 16 bits.
pub fn u32_to_u16_array(input: [u32; 4]) -> (r: [u16; 4])
    ensures
        r[0] == input[0] as u16,
        r[1] == input[1] as u16,
        r[2] == input[2] as u16,
        r[3] == input[3] as u16,
{
    [input[0] as u16, input[1] as u16, input[2] as u16, input[3] as u16]
}

} // verus!
