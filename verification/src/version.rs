//! A 4-part product version (major, minor, patch, build), totally ordered,
//! with a packed 32-bit form and a parser for the dotted string form.

use vstd::prelude::*;
use vstd::string::StringExecFns;
use vstd::string::StringSliceAdditionalSpecFns;

verus! {

/// A 4-part version number, ordered lexicographically by
/// (major, minor, patch, build).
#[derive(Debug, Clone, Copy, PartialEq, Eq, Structural, PartialOrd, Ord, Hash)]
pub struct Version {
    pub major: u16,
    pub minor: u16,
    pub patch: u16,
    pub build: u16,
}

/// Failures of parsing a dotted version string.
#[derive(Debug, Clone, PartialEq, Eq, Structural, Hash)]
pub enum VersionParseError {
    /// More than 4 dot-separated parts were given.
    TooManyParts { parts: usize },
    /// A character other than an ASCII digit or `.` was found.
    InvalidCharacter { character: char },
    /// A part had no digits before the string or the next dot ended it.
    MissingNumber { part: usize },
}

/// One decimal digit folded into a part's accumulator, with the
/// accumulator wrapping at 16 bits.
pub open spec fn spec_fold_digit(num: u16, b: u8) -> u16 {
    (((num * 10) + (b - 48)) % 0x10000) as u16
}

/// The part at index `i`, or 0 where fewer parts were written.
pub open spec fn spec_part_or_zero(parts: Seq<u16>, i: int) -> u16 {
    if 0 <= i < parts.len() {
        parts[i]
    } else {
        0
    }
}

impl Version {
    /// The version all of whose components are the given values.
    pub fn new(major: u16, minor: u16, patch: u16, build: u16) -> (r: Self)
        ensures
            r == (Version { major, minor, patch, build }),
    {
        Self { major, minor, patch, build }
    }

    /// The all-zero version.
    pub fn const_default() -> (r: Self)
        ensures
            r == (Version { major: 0u16, minor: 0u16, patch: 0u16, build: 0u16 }),
    {
        Self::new(0, 0, 0, 0)
    }

    pub fn major(&self) -> (r: u16)
        ensures
            r == self.major,
    {
        self.major
    }

    pub fn minor(&self) -> (r: u16)
        ensures
            r == self.minor,
    {
        self.minor
    }

    pub fn patch(&self) -> (r: u16)
        ensures
            r == self.patch,
    {
        self.patch
    }

    pub fn build(&self) -> (r: u16)
        ensures
            r == self.build,
    {
        self.build
    }

    /// The packed 32-bit form: 8 bits major, 8 bits minor, 12 bits patch,
    /// 4 bits build, each component truncated to its field.
    pub open spec fn spec_pack(self) -> u32 {
        ((self.major as u32 & 0xFF) << 24) | ((self.minor as u32 & 0xFF) << 16) | ((
        self.patch as u32 & 0xFFF) << 4) | (self.build as u32 & 0xF)
    }

    /// Packs the version into a 32-bit integer.
    pub fn pack(&self) -> (r: u32)
        ensures
            r == self.spec_pack(),
    {
        ((self.major as u32 & 0xFF) << 24u32) | ((self.minor as u32 & 0xFF) << 16u32) | ((
        self.patch as u32 & 0xFFF) << 4u32) | (self.build as u32 & 0xF)
    }

    /// The version whose components are the fields of the packed form.
    pub open spec fn spec_unpack(packed: u32) -> Version {
        Version {
            major: ((packed >> 24) & 0xFF) as u16,
            minor: ((packed >> 16) & 0xFF) as u16,
            patch: ((packed >> 4) & 0xFFF) as u16,
            build: (packed & 0xF) as u16,
        }
    }

    /// Unpacks a 32-bit integer into a `Version`.
    pub fn unpack(packed: u32) -> (r: Self)
        ensures
            r == Self::spec_unpack(packed),
    {
        Version {
            major: ((packed >> 24u32) & 0xFF) as u16,
            minor: ((packed >> 16u32) & 0xFF) as u16,
            patch: ((packed >> 4u32) & 0xFFF) as u16,
            build: (packed & 0xF) as u16,
        }
    }

    /// What parsing the byte sequence yields, scanned left to right with the
    /// parts already finished, the current part's accumulator, and whether the
    /// current part has seen a digit.
    pub open spec fn spec_parse_from(
        bytes: Seq<u8>,
        parts: Seq<u16>,
        num: u16,
        has_digit: bool,
    ) -> Result<Version, VersionParseError>
        decreases bytes.len(),
    {
        if bytes.len() == 0 {
            if has_digit {
                if parts.len() >= 4 {
                    Err(VersionParseError::TooManyParts { parts: parts.len() as usize })
                } else {
                    let full = parts.push(num);
                    Ok(
                        Version {
                            major: spec_part_or_zero(full, 0),
                            minor: spec_part_or_zero(full, 1),
                            patch: spec_part_or_zero(full, 2),
                            build: spec_part_or_zero(full, 3),
                        },
                    )
                }
            } else {
                Err(VersionParseError::MissingNumber { part: parts.len() as usize })
            }
        } else if bytes[0] == 46 {
            if parts.len() >= 4 {
                Err(VersionParseError::TooManyParts { parts: parts.len() as usize })
            } else {
                Self::spec_parse_from(bytes.drop_first(), parts.push(num), 0, false)
            }
        } else if 48 <= bytes[0] <= 57 {
            Self::spec_parse_from(
                bytes.drop_first(),
                parts,
                spec_fold_digit(num, bytes[0]),
                true,
            )
        } else {
            Err(VersionParseError::InvalidCharacter { character: bytes[0] as char })
        }
    }

    /// What parsing the whole byte sequence of a version string yields.
    pub open spec fn spec_parse(bytes: Seq<u8>) -> Result<Version, VersionParseError> {
        Self::spec_parse_from(bytes, Seq::empty(), 0, false)
    }

    /// Parses a dotted version string: up to 4 dot-separated decimal parts,
    /// missing trailing parts read as 0, each part's accumulator wrapping at
    /// 16 bits.
    pub fn const_from_str(version: &str) -> (r: Result<Self, VersionParseError>)
        ensures
            r == Self::spec_parse(version.spec_bytes()),
    {
        let bytes: &[u8] = version.as_bytes();
        let len: usize = bytes.len();
        let mut parts: Vec<u16> = Vec::new();
        let mut num: u16 = 0;
        let mut has_digit: bool = false;
        let mut i: usize = 0;

        proof {
            assert(bytes@.skip(0) =~= bytes@);
        }
        while i < len
            invariant
                bytes@ == version.spec_bytes(),
                len == bytes@.len(),
                i <= len,
                Self::spec_parse_from(bytes@.skip(i as int), parts@, num, has_digit)
                    == Self::spec_parse(bytes@),
            decreases len - i,
        {
            let b = bytes[i];
            proof {
                assert(bytes@.skip(i as int).len() > 0);
                assert(bytes@.skip(i as int)[0] == bytes@[i as int]);
                assert(bytes@.skip(i as int).drop_first() =~= bytes@.skip(i as int + 1));
            }
            if b == 46 {
                if parts.len() >= 4 {
                    return Err(VersionParseError::TooManyParts { parts: parts.len() });
                }
                parts.push(num);
                num = 0;
                has_digit = false;
            } else if 48 <= b && b <= 57 {
                let prod: u32 = (num as u32) * 10 + ((b - 48) as u32);
                num = (prod % 0x10000) as u16;
                has_digit = true;
            } else {
                return Err(VersionParseError::InvalidCharacter { character: b as char });
            }
            i = i + 1;
        }

        proof {
            assert(bytes@.skip(len as int) =~= Seq::<u8>::empty());
        }
        if has_digit {
            if parts.len() >= 4 {
                return Err(VersionParseError::TooManyParts { parts: parts.len() });
            }
            parts.push(num);
            let p0 = if parts.len() > 0 { parts[0] } else { 0 };
            let p1 = if parts.len() > 1 { parts[1] } else { 0 };
            let p2 = if parts.len() > 2 { parts[2] } else { 0 };
            let p3 = if parts.len() > 3 { parts[3] } else { 0 };
            Ok(Version { major: p0, minor: p1, patch: p2, build: p3 })
        } else {
            Err(VersionParseError::MissingNumber { part: parts.len() })
        }
    }
}

/// The character of one decimal digit.
pub open spec fn spec_digit_char(d: int) -> char {
    if d == 0 {
        '0'
    } else if d == 1 {
        '1'
    } else if d == 2 {
        '2'
    } else if d == 3 {
        '3'
    } else if d == 4 {
        '4'
    } else if d == 5 {
        '5'
    } else if d == 6 {
        '6'
    } else if d == 7 {
        '7'
    } else if d == 8 {
        '8'
    } else {
        '9'
    }
}

/// The decimal digits of a number, most significant first.
pub open spec fn spec_dec_chars(n: int) -> Seq<char>
    decreases n,
{
    if n < 10 {
        seq![spec_digit_char(n)]
    } else {
        spec_dec_chars(n / 10).push(spec_digit_char(n % 10))
    }
}

/// The canonical string form of a version:
/// `major.minor.patch.build` in decimal.
pub open spec fn spec_version_chars(v: Version) -> Seq<char> {
    spec_dec_chars(v.major as int) + seq!['.'] + spec_dec_chars(v.minor as int) + seq!['.']
        + spec_dec_chars(v.patch as int) + seq!['.'] + spec_dec_chars(v.build as int)
}

/// The one-character string of a decimal digit.
fn digit_str(d: u16) -> (r: &'static str)
    requires
        d < 10,
    ensures
        r@ =~= seq![spec_digit_char(d as int)],
{
    proof {
        reveal_strlit("0");
        reveal_strlit("1");
        reveal_strlit("2");
        reveal_strlit("3");
        reveal_strlit("4");
        reveal_strlit("5");
        reveal_strlit("6");
        reveal_strlit("7");
        reveal_strlit("8");
        reveal_strlit("9");
    }
    match d {
        0 => "0",
        1 => "1",
        2 => "2",
        3 => "3",
        4 => "4",
        5 => "5",
        6 => "6",
        7 => "7",
        8 => "8",
        _ => "9",
    }
}

/// Appends a number's decimal digits, most significant first.
fn push_dec(s: &mut String, n: u16)
    ensures
        final(s)@ == old(s)@ + spec_dec_chars(n as int),
    decreases n,
{
    if n < 10 {
        s.append(digit_str(n));
    } else {
        push_dec(s, n / 10);
        s.append(digit_str(n % 10));
        proof {
            assert(old(s)@ + spec_dec_chars(n as int / 10) + seq![
                spec_digit_char(n as int % 10),
            ] =~= old(s)@ + spec_dec_chars(n as int));
        }
    }
}

impl Version {
    /// The canonical string form `major.minor.patch.build`, used to name
    /// the address-library file and the shared region.
    pub fn to_version_string(&self) -> (r: String)
        ensures
            r@ =~= spec_version_chars(*self),
    {
        proof {
            reveal_strlit(".");
        }
        let mut s = String::new();
        push_dec(&mut s, self.major);
        s.append(".");
        push_dec(&mut s, self.minor);
        s.append(".");
        push_dec(&mut s, self.patch);
        s.append(".");
        push_dec(&mut s, self.build);
        proof {
            assert((".")@ =~= seq!['.']);
        }
        s
    }
}

/// Law: packing loses nothing when each component fits its packed field
/// (8 bits major, 8 bits minor, 12 bits patch, 4 bits build); unpacking the
/// packed form gives the version back.
pub proof fn lemma_pack_unpack_roundtrip(v: Version)
    requires
        v.major <= 0xFF,
        v.minor <= 0xFF,
        v.patch <= 0xFFF,
        v.build <= 0xF,
    ensures
        Version::spec_unpack(v.spec_pack()) == v,
{
    let m = v.major;
    let n = v.minor;
    let p = v.patch;
    let b = v.build;
    assert((((((m as u32 & 0xFF) << 24) | ((n as u32 & 0xFF) << 16) | ((p as u32 & 0xFFF) << 4) | (
    b as u32 & 0xF)) >> 24) & 0xFF) == m as u32) by (bit_vector)
        requires
            m <= 0xFF,
    ;
    assert((((((m as u32 & 0xFF) << 24) | ((n as u32 & 0xFF) << 16) | ((p as u32 & 0xFFF) << 4) | (
    b as u32 & 0xF)) >> 16) & 0xFF) == n as u32) by (bit_vector)
        requires
            n <= 0xFF,
    ;
    assert((((((m as u32 & 0xFF) << 24) | ((n as u32 & 0xFF) << 16) | ((p as u32 & 0xFFF) << 4) | (
    b as u32 & 0xF)) >> 4) & 0xFFF) == p as u32) by (bit_vector)
        requires
            p <= 0xFFF,
    ;
    assert(((((m as u32 & 0xFF) << 24) | ((n as u32 & 0xFF) << 16) | ((p as u32 & 0xFFF) << 4) | (
    b as u32 & 0xF)) & 0xF) == b as u32) by (bit_vector)
        requires
            b <= 0xF,
    ;
}

} // verus!
