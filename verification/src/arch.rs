//! Standard Arm architecture calls.

use vstd::prelude::*;
use vstd::std_specs::convert::{FromSpec, TryFromSpec};

mod calls;
pub mod error;

pub use calls::{
    arch_workaround_1, arch_workaround_2, arch_workaround_3, features, soc_id, version,
};

use error::Error;

verus! {

pub const SMCCC_VERSION: u32 = 0x8000_0000;

pub const SMCCC_ARCH_FEATURES: u32 = 0x8000_0001;

pub const SMCCC_ARCH_SOC_ID: u32 = 0x8000_0002;

pub const SMCCC_ARCH_WORKAROUND_1: u32 = 0x8000_8000;

pub const SMCCC_ARCH_WORKAROUND_2: u32 = 0x8000_7FFF;

pub const SMCCC_ARCH_WORKAROUND_3: u32 = 0x8000_3FFF;

/// A version of the SMC Calling Convention.
#[derive(Copy, Clone, Debug, Eq, Ord, PartialEq, PartialOrd, Structural)]
pub struct Version {
    pub major: u16,
    pub minor: u16,
}

impl Version {
    /// The number that holds this version: the major part in the high 16 bits of a 32-bit
    /// word, the minor part in the low 16 bits.
    pub open spec fn packed(self) -> int {
        self.major * 0x1_0000 + self.minor
    }

    /// The version that a number from 0 to `u32::MAX` holds.
    pub open spec fn unpacked(value: int) -> Version {
        Version { major: (value / 0x1_0000) as u16, minor: (value % 0x1_0000) as u16 }
    }
}

impl TryFrom<i32> for Version {
    type Error = Error;

    fn try_from(value: i32) -> (r: Result<Self, Error>) {
        if value < 0 {
            Err(value.into())
        } else {
            let major = #[verifier::truncate] ((value >> 16) as u16);
            let minor = #[verifier::truncate] (value as u16);
            assert(major == value / 0x1_0000 && minor == value % 0x1_0000) by (bit_vector)
                requires
                    value >= 0,
                    major == (value >> 16) as u16,
                    minor == value as u16,
            ;
            Ok(Self { major, minor })
        }
    }
}

impl vstd::std_specs::convert::TryFromSpecImpl<i32> for Version {
    open spec fn obeys_try_from_spec() -> bool {
        true
    }

    open spec fn try_from_spec(value: i32) -> Result<Version, Error> {
        if value < 0 {
            Err(Error::from_spec(value))
        } else {
            Ok(Version::unpacked(value as int))
        }
    }
}

impl From<Version> for u32 {
    fn from(version: Version) -> (value: u32) {
        let major = u32::from(version.major);
        let minor = u32::from(version.minor);
        assert((major << 16 | minor) == major * 0x1_0000 + minor) by (bit_vector)
            requires
                major < 0x1_0000,
                minor < 0x1_0000,
        ;
        major << 16 | minor
    }
}

impl vstd::std_specs::convert::FromSpecImpl<Version> for u32 {
    open spec fn obeys_from_spec() -> bool {
        true
    }

    open spec fn from_spec(version: Version) -> u32 {
        version.packed() as u32
    }
}

/// The kind of SoC identification to ask for.
#[derive(Copy, Clone, Debug, Eq, Ord, PartialEq, PartialOrd, Structural)]
pub enum SocIdType {
    /// The SoC version.
    Version,
    /// The SoC revision.
    Revision,
}

impl From<SocIdType> for u32 {
    fn from(id_type: SocIdType) -> (value: u32) {
        match id_type {
            SocIdType::Version => 0,
            SocIdType::Revision => 1,
        }
    }
}

impl vstd::std_specs::convert::FromSpecImpl<SocIdType> for u32 {
    open spec fn obeys_from_spec() -> bool {
        true
    }

    open spec fn from_spec(id_type: SocIdType) -> u32 {
        match id_type {
            SocIdType::Version => 0,
            SocIdType::Revision => 1,
        }
    }
}

/// A version packs into a number that unpacks into the same version, and a number from 0 to
/// `u32::MAX` unpacks into a version that packs into the same number.
pub proof fn lemma_version_round_trip(version: Version, value: u32)
    ensures
        0 <= version.packed() <= u32::MAX,
        Version::unpacked(version.packed()) == version,
        Version::unpacked(value as int).packed() == value,
{
}

/// A number that is not negative decodes to a version whose number it is. A version whose
/// major part is below `0x8000` is what its own number decodes to; with a higher major part
/// the number has its high bit set, and decodes to an error.
pub proof fn lemma_version_conversions(version: Version, value: i32)
    ensures
        value >= 0 ==> Version::try_from_spec(value) is Ok && u32::from_spec(
            Version::try_from_spec(value)->Ok_0,
        ) == value,
        value < 0 ==> Version::try_from_spec(value) == Err::<Version, Error>(
            Error::from_spec(value),
        ),
        version.major < 0x8000 ==> Version::try_from_spec(version.packed() as i32) == Ok::<
            Version,
            Error,
        >(version),
        version.major >= 0x8000 ==> Version::try_from_spec(
            crate::error::signed32(u32::from_spec(version)),
        ) is Err,
{
}

} // verus!
