//! Classification of the host executable into its build flavors.

use crate::version::Version;
use vstd::prelude::*;

verus! {

/// The build flavor of the host executable.
#[derive(Debug, Clone, Copy, PartialEq, Eq, Structural, PartialOrd, Ord, Hash)]
pub enum Runtime {
    /// No flavor has been determined.
    Unknown,
    /// A post-anniversary-edition release (minor version 6 and later).
    Ae,
    /// A pre-anniversary-edition special-edition release.
    Se,
    /// The virtual-reality release.
    Vr,
}

impl Default for Runtime {
    fn default() -> (r: Self)
        ensures
            r == Runtime::Unknown,
    {
        Runtime::Unknown
    }
}

/// The flavor that the lenient classification assigns to a minor version:
/// 4 is Vr, 6 is Ae, everything else Se.
pub open spec fn spec_runtime_of_minor(minor: u16) -> Runtime {
    if minor == 4 {
        Runtime::Vr
    } else if minor == 6 {
        Runtime::Ae
    } else {
        Runtime::Se
    }
}

/// Whether the version is one of the known special-edition releases.
pub open spec fn spec_is_known_se(v: Version) -> bool {
    v.major == 1 && v.build == 0 && ((v.minor == 1 && (v.patch == 47 || v.patch == 51)) || (
    v.minor == 2 && (v.patch == 36 || v.patch == 39)) || (v.minor == 3 && (v.patch == 5
        || v.patch == 9)) || (v.minor == 4 && v.patch == 2) || (v.minor == 5 && (v.patch == 3
        || v.patch == 16 || v.patch == 23 || v.patch == 39 || v.patch == 50 || v.patch == 53
        || v.patch == 62 || v.patch == 73 || v.patch == 80 || v.patch == 97)))
}

/// Whether the version is one of the known anniversary-edition releases.
pub open spec fn spec_is_known_ae(v: Version) -> bool {
    v.major == 1 && v.minor == 6 && v.build == 0 && (v.patch == 317 || v.patch == 318 || v.patch
        == 323 || v.patch == 342 || v.patch == 353 || v.patch == 629 || v.patch == 640 || v.patch
        == 659 || v.patch == 678 || v.patch == 1130 || v.patch == 1170)
}

/// Whether the version is the known virtual-reality release.
pub open spec fn spec_is_known_vr(v: Version) -> bool {
    v.major == 1 && v.minor == 4 && v.patch == 15 && v.build == 0
}

impl Runtime {
    /// Classifies a version leniently, by its minor component alone.
    pub fn from_version(version: &Version) -> (r: Self)
        ensures
            r == spec_runtime_of_minor(version.minor),
    {
        let minor = version.minor();
        if minor == 4 {
            Runtime::Vr
        } else if minor == 6 {
            Runtime::Ae
        } else {
            Runtime::Se
        }
    }

    /// Classifies a version strictly: only an exact match against the table
    /// of known released versions yields a flavor.
    pub fn from_version_strict(version: &Version) -> (r: Option<Self>)
        ensures
            spec_is_known_se(*version) ==> r == Some(Runtime::Se),
            spec_is_known_ae(*version) ==> r == Some(Runtime::Ae),
            spec_is_known_vr(*version) ==> r == Some(Runtime::Vr),
            !(spec_is_known_se(*version) || spec_is_known_ae(*version) || spec_is_known_vr(
                *version,
            )) ==> r is None,
    {
        let v = *version;
        if v.major != 1 || v.build != 0 {
            return None;
        }
        let known_se = (v.minor == 1 && (v.patch == 47 || v.patch == 51)) || (v.minor == 2 && (
        v.patch == 36 || v.patch == 39)) || (v.minor == 3 && (v.patch == 5 || v.patch == 9)) || (
        v.minor == 4 && v.patch == 2) || (v.minor == 5 && (v.patch == 3 || v.patch == 16 || v.patch
            == 23 || v.patch == 39 || v.patch == 50 || v.patch == 53 || v.patch == 62 || v.patch
            == 73 || v.patch == 80 || v.patch == 97));
        if known_se {
            return Some(Runtime::Se);
        }
        let known_ae = v.minor == 6 && (v.patch == 317 || v.patch == 318 || v.patch == 323
            || v.patch == 342 || v.patch == 353 || v.patch == 629 || v.patch == 640 || v.patch
            == 659 || v.patch == 678 || v.patch == 1130 || v.patch == 1170);
        if known_ae {
            return Some(Runtime::Ae);
        }
        if v.minor == 4 && v.patch == 15 {
            return Some(Runtime::Vr);
        }
        None
    }

    /// The flavor's bit-flag value: 0 for an undetermined flavor, then
    /// one distinct bit per flavor.
    pub fn as_flag(&self) -> (r: u8)
        ensures
            r == (match *self {
                Runtime::Unknown => 0u8,
                Runtime::Ae => 1u8,
                Runtime::Se => 2u8,
                Runtime::Vr => 4u8,
            }),
    {
        match self {
            Runtime::Unknown => 0,
            Runtime::Ae => 1,
            Runtime::Se => 2,
            Runtime::Vr => 4,
        }
    }

    /// Whether this flavor is the anniversary edition.
    pub fn is_ae(&self) -> (r: bool)
        ensures
            r == (*self == Runtime::Ae),
    {
        matches!(self, Runtime::Ae)
    }

    /// Which on-disk record-format version this flavor's address library
    /// files carry: 2 for the anniversary edition, 1 otherwise.
    pub fn expected_format_version(&self) -> (r: u8)
        ensures
            r == (if *self == Runtime::Ae {
                2u8
            } else {
                1u8
            }),
    {
        if self.is_ae() {
            2
        } else {
            1
        }
    }
}

} // verus!
