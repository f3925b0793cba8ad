//! Constants and calls of the Arm Power State Coordination Interface (PSCI).
//!
//! Where a call exists in a 32-bit and in a 64-bit flavour, the two have identifiers of
//! their own, and the function for the 32-bit flavour has a name that ends in `_32`.

use vstd::prelude::*;
use vstd::std_specs::convert::{FromSpec, TryFromSpec};

mod calls;
pub mod error;

pub use calls::{
    affinity_info, affinity_info_32, cpu_default_suspend, cpu_default_suspend_32, cpu_freeze,
    cpu_off, cpu_on, cpu_on_32, cpu_suspend, cpu_suspend_32, mem_protect,
    mem_protect_check_range, mem_protect_check_range_32, migrate, migrate_32, migrate_info_type,
    migrate_info_up_cpu, migrate_info_up_cpu_32, node_hw_state, node_hw_state_32,
    protection_before, psci_features, set_suspend_mode, stat_count, stat_count_32,
    stat_residency, stat_residency_32, system_off, system_reset, system_reset2,
    system_reset2_32, system_suspend, system_suspend_32, version,
};

use error::Error;

verus! {

pub const PSCI_VERSION: u32 = 0x8400_0000;

pub const PSCI_CPU_SUSPEND_32: u32 = 0x8400_0001;

pub const PSCI_CPU_SUSPEND_64: u32 = 0xC400_0001;

pub const PSCI_CPU_OFF: u32 = 0x8400_0002;

pub const PSCI_CPU_ON_32: u32 = 0x8400_0003;

pub const PSCI_CPU_ON_64: u32 = 0xC400_0003;

pub const PSCI_AFFINITY_INFO_32: u32 = 0x8400_0004;

pub const PSCI_AFFINITY_INFO_64: u32 = 0xC400_0004;

pub const PSCI_MIGRATE_32: u32 = 0x8400_0005;

pub const PSCI_MIGRATE_64: u32 = 0xC400_0005;

pub const PSCI_MIGRATE_INFO_TYPE: u32 = 0x8400_0006;

pub const PSCI_MIGRATE_INFO_UP_CPU_32: u32 = 0x8400_0007;

pub const PSCI_MIGRATE_INFO_UP_CPU_64: u32 = 0xC400_0007;

pub const PSCI_SYSTEM_OFF: u32 = 0x8400_0008;

pub const PSCI_SYSTEM_RESET: u32 = 0x8400_0009;

pub const PSCI_FEATURES: u32 = 0x8400_000A;

pub const PSCI_CPU_FREEZE: u32 = 0x8400_000B;

pub const PSCI_CPU_DEFAULT_SUSPEND_32: u32 = 0x8400_000C;

pub const PSCI_CPU_DEFAULT_SUSPEND_64: u32 = 0xC400_000C;

pub const PSCI_NODE_HW_STATE_32: u32 = 0x8400_000D;

pub const PSCI_NODE_HW_STATE_64: u32 = 0xC400_000D;

pub const PSCI_SYSTEM_SUSPEND_32: u32 = 0x8400_000E;

pub const PSCI_SYSTEM_SUSPEND_64: u32 = 0xC400_000E;

pub const PSCI_SET_SUSPEND_MODE: u32 = 0x8400_000F;

pub const PSCI_STAT_RESIDENCY_32: u32 = 0x8400_0010;

pub const PSCI_STAT_RESIDENCY_64: u32 = 0xC400_0010;

pub const PSCI_STAT_COUNT_32: u32 = 0x8400_0011;

pub const PSCI_STAT_COUNT_64: u32 = 0xC400_0011;

pub const PSCI_SYSTEM_RESET2_32: u32 = 0x8400_0012;

pub const PSCI_SYSTEM_RESET2_64: u32 = 0xC400_0012;

pub const PSCI_MEM_PROTECT: u32 = 0x8400_0013;

pub const PSCI_MEM_PROTECT_CHECK_RANGE_32: u32 = 0x8400_0014;

pub const PSCI_MEM_PROTECT_CHECK_RANGE_64: u32 = 0xC400_0014;

/// Selects which affinity level fields are valid in the `target_affinity` parameter to
/// `AFFINITY_INFO`.
#[derive(Copy, Clone, Debug, Eq, PartialEq, Structural)]
pub enum LowestAffinityLevel {
    /// All affinity level fields are valid.
    All,
    /// The `Aff0` field is ignored.
    Aff0Ignored,
    /// The `Aff0` and `Aff1` fields are ignored.
    Aff0Aff1Ignored,
    /// The `Aff0`, `Aff1` and `Aff2` fields are ignored.
    Aff0Aff1Aff2Ignored,
}

impl LowestAffinityLevel {
    /// The number that selects this level in a call: how many of the lowest fields are
    /// ignored.
    pub open spec fn code(self) -> int {
        match self {
            LowestAffinityLevel::All => 0,
            LowestAffinityLevel::Aff0Ignored => 1,
            LowestAffinityLevel::Aff0Aff1Ignored => 2,
            LowestAffinityLevel::Aff0Aff1Aff2Ignored => 3,
        }
    }
}

impl From<LowestAffinityLevel> for u32 {
    fn from(lowest_affinity_level: LowestAffinityLevel) -> (value: u32) {
        match lowest_affinity_level {
            LowestAffinityLevel::All => 0,
            LowestAffinityLevel::Aff0Ignored => 1,
            LowestAffinityLevel::Aff0Aff1Ignored => 2,
            LowestAffinityLevel::Aff0Aff1Aff2Ignored => 3,
        }
    }
}

impl vstd::std_specs::convert::FromSpecImpl<LowestAffinityLevel> for u32 {
    open spec fn obeys_from_spec() -> bool {
        true
    }

    open spec fn from_spec(lowest_affinity_level: LowestAffinityLevel) -> u32 {
        lowest_affinity_level.code() as u32
    }
}

impl From<LowestAffinityLevel> for u64 {
    fn from(lowest_affinity_level: LowestAffinityLevel) -> (value: u64) {
        u32::from(lowest_affinity_level).into()
    }
}

impl vstd::std_specs::convert::FromSpecImpl<LowestAffinityLevel> for u64 {
    open spec fn obeys_from_spec() -> bool {
        true
    }

    open spec fn from_spec(lowest_affinity_level: LowestAffinityLevel) -> u64 {
        lowest_affinity_level.code() as u64
    }
}

/// Affinity state values returned by `AFFINITY_INFO`.
#[derive(Copy, Clone, Debug, Eq, PartialEq, Structural)]
pub enum AffinityState {
    /// At least one core in the affinity instance is on.
    On,
    /// All cores in the affinity instance are off.
    Off,
    /// The affinity instance is transitioning to the on state.
    OnPending,
}

impl AffinityState {
    /// What a raw code means as an affinity state: 0, 1 and 2 name the three states, and any
    /// other code is the error that it stands for.
    pub open spec fn decoded(code: i64) -> Result<AffinityState, Error> {
        if code == 0 {
            Ok(AffinityState::On)
        } else if code == 1 {
            Ok(AffinityState::Off)
        } else if code == 2 {
            Ok(AffinityState::OnPending)
        } else {
            Err(Error::of_code(code))
        }
    }
}

impl TryFrom<i32> for AffinityState {
    type Error = Error;

    fn try_from(value: i32) -> (r: Result<Self, Error>) {
        match value {
            0 => Ok(Self::On),
            1 => Ok(Self::Off),
            2 => Ok(Self::OnPending),
            _ => Err(value.into()),
        }
    }
}

impl vstd::std_specs::convert::TryFromSpecImpl<i32> for AffinityState {
    open spec fn obeys_try_from_spec() -> bool {
        true
    }

    open spec fn try_from_spec(value: i32) -> Result<AffinityState, Error> {
        AffinityState::decoded(value as i64)
    }
}

impl TryFrom<i64> for AffinityState {
    type Error = Error;

    fn try_from(value: i64) -> (r: Result<Self, Error>) {
        match value {
            0 => Ok(Self::On),
            1 => Ok(Self::Off),
            2 => Ok(Self::OnPending),
            _ => Err(value.into()),
        }
    }
}

impl vstd::std_specs::convert::TryFromSpecImpl<i64> for AffinityState {
    open spec fn obeys_try_from_spec() -> bool {
        true
    }

    open spec fn try_from_spec(value: i64) -> Result<AffinityState, Error> {
        AffinityState::decoded(value)
    }
}

/// The level of multicore support in the Trusted OS, as returned by `MIGRATE_INFO_TYPE`.
#[derive(Copy, Clone, Debug, Eq, PartialEq, Structural)]
pub enum MigrateType {
    /// The Trusted OS will only run on one core, and supports the `MIGRATE` function.
    MigrateCapable,
    /// The Trusted OS does not support the `MIGRATE` function.
    NotMigrateCapable,
    /// Either there is no Trusted OS, or it doesn't require migration.
    MigrationNotRequired,
}

impl MigrateType {
    /// What a raw code means as a level of multicore support: 0, 1 and 2 name the three
    /// levels, and any other code is the error that it stands for.
    pub open spec fn decoded(code: i64) -> Result<MigrateType, Error> {
        if code == 0 {
            Ok(MigrateType::MigrateCapable)
        } else if code == 1 {
            Ok(MigrateType::NotMigrateCapable)
        } else if code == 2 {
            Ok(MigrateType::MigrationNotRequired)
        } else {
            Err(Error::of_code(code))
        }
    }
}

impl TryFrom<i32> for MigrateType {
    type Error = Error;

    fn try_from(value: i32) -> (r: Result<Self, Error>) {
        match value {
            0 => Ok(Self::MigrateCapable),
            1 => Ok(Self::NotMigrateCapable),
            2 => Ok(Self::MigrationNotRequired),
            _ => Err(value.into()),
        }
    }
}

impl vstd::std_specs::convert::TryFromSpecImpl<i32> for MigrateType {
    open spec fn obeys_try_from_spec() -> bool {
        true
    }

    open spec fn try_from_spec(value: i32) -> Result<MigrateType, Error> {
        MigrateType::decoded(value as i64)
    }
}

/// The power state of a node in the power domain topology, as returned by `NODE_HW_STATE`.
#[derive(Copy, Clone, Debug, Eq, PartialEq, Structural)]
pub enum PowerState {
    /// The node is in the run state.
    HwOn,
    /// The node is fully powered down.
    HwOff,
    /// The node is in a standby or retention power state.
    HwStandby,
}

impl PowerState {
    /// What a raw code means as a power state: 0, 1 and 2 name the three states, and any
    /// other code is the error that it stands for.
    pub open spec fn decoded(code: i64) -> Result<PowerState, Error> {
        if code == 0 {
            Ok(PowerState::HwOn)
        } else if code == 1 {
            Ok(PowerState::HwOff)
        } else if code == 2 {
            Ok(PowerState::HwStandby)
        } else {
            Err(Error::of_code(code))
        }
    }
}

impl TryFrom<i32> for PowerState {
    type Error = Error;

    fn try_from(value: i32) -> (r: Result<Self, Error>) {
        match value {
            0 => Ok(Self::HwOn),
            1 => Ok(Self::HwOff),
            2 => Ok(Self::HwStandby),
            _ => Err(value.into()),
        }
    }
}

impl vstd::std_specs::convert::TryFromSpecImpl<i32> for PowerState {
    open spec fn obeys_try_from_spec() -> bool {
        true
    }

    open spec fn try_from_spec(value: i32) -> Result<PowerState, Error> {
        PowerState::decoded(value as i64)
    }
}

impl TryFrom<i64> for PowerState {
    type Error = Error;

    fn try_from(value: i64) -> (r: Result<Self, Error>) {
        match value {
            0 => Ok(Self::HwOn),
            1 => Ok(Self::HwOff),
            2 => Ok(Self::HwStandby),
            _ => Err(value.into()),
        }
    }
}

impl vstd::std_specs::convert::TryFromSpecImpl<i64> for PowerState {
    open spec fn obeys_try_from_spec() -> bool {
        true
    }

    open spec fn try_from_spec(value: i64) -> Result<PowerState, Error> {
        PowerState::decoded(value)
    }
}

/// The mode to be used by `CPU_SUSPEND`, as set by `PSCI_SET_SUSPEND_MODE`.
#[derive(Copy, Clone, Debug, Eq, PartialEq, Structural)]
pub enum SuspendMode {
    /// Platform-coordinated mode.
    PlatformCoordinated,
    /// OS-initiated mode.
    OsInitiated,
}

impl From<SuspendMode> for u32 {
    fn from(suspend_mode: SuspendMode) -> (value: u32) {
        match suspend_mode {
            SuspendMode::PlatformCoordinated => 0,
            SuspendMode::OsInitiated => 1,
        }
    }
}

impl vstd::std_specs::convert::FromSpecImpl<SuspendMode> for u32 {
    open spec fn obeys_from_spec() -> bool {
        true
    }

    open spec fn from_spec(suspend_mode: SuspendMode) -> u32 {
        match suspend_mode {
            SuspendMode::PlatformCoordinated => 0,
            SuspendMode::OsInitiated => 1,
        }
    }
}

/// A version of PSCI.
#[derive(Copy, Clone, Debug, Eq, Ord, PartialEq, PartialOrd, Structural)]
pub struct Version {
    pub major: u16,
    pub minor: u16,
}

impl Version {
    /// The number that holds this version: the major part in the high 16 bits of a 32-bit
    /// word, the minor part in the low 16 bits.
    pub open spec fn packed(self) -> int {
        self.major * 0x1_0000 + self.minor
    }

    /// The version that a number from 0 to `u32::MAX` holds.
    pub open spec fn unpacked(value: int) -> Version {
        Version { major: (value / 0x1_0000) as u16, minor: (value % 0x1_0000) as u16 }
    }
}

impl TryFrom<i32> for Version {
    type Error = Error;

    fn try_from(value: i32) -> (r: Result<Self, Error>) {
        if value < 0 {
            Err(value.into())
        } else {
            let major = #[verifier::truncate] ((value >> 16) as u16);
            let minor = #[verifier::truncate] (value as u16);
            assert(major == value / 0x1_0000 && minor == value % 0x1_0000) by (bit_vector)
                requires
                    value >= 0,
                    major == (value >> 16) as u16,
                    minor == value as u16,
            ;
            Ok(Self { major, minor })
        }
    }
}

impl vstd::std_specs::convert::TryFromSpecImpl<i32> for Version {
    open spec fn obeys_try_from_spec() -> bool {
        true
    }

    open spec fn try_from_spec(value: i32) -> Result<Version, Error> {
        if value < 0 {
            Err(<Error as FromSpec<i32>>::from_spec(value))
        } else {
            Ok(Version::unpacked(value as int))
        }
    }
}

impl From<Version> for u32 {
    fn from(version: Version) -> (value: u32) {
        let major = u32::from(version.major);
        let minor = u32::from(version.minor);
        assert((major << 16 | minor) == major * 0x1_0000 + minor) by (bit_vector)
            requires
                major < 0x1_0000,
                minor < 0x1_0000,
        ;
        major << 16 | minor
    }
}

impl vstd::std_specs::convert::FromSpecImpl<Version> for u32 {
    open spec fn obeys_from_spec() -> bool {
        true
    }

    open spec fn from_spec(version: Version) -> u32 {
        version.packed() as u32
    }
}

/// A version packs into a number that unpacks into the same version, and a number from 0 to
/// `u32::MAX` unpacks into a version that packs into the same number.
pub proof fn lemma_version_round_trip(version: Version, value: u32)
    ensures
        0 <= version.packed() <= u32::MAX,
        Version::unpacked(version.packed()) == version,
        Version::unpacked(value as int).packed() == value,
{
}

/// A number that is not negative decodes to a version whose number it is, and a negative one
/// to the error that it stands for. A version whose major part is below `0x8000` is what its
/// own number decodes to.
pub proof fn lemma_version_conversions(version: Version, value: i32)
    ensures
        value >= 0 ==> Version::try_from_spec(value) is Ok && u32::from_spec(
            Version::try_from_spec(value)->Ok_0,
        ) == value,
        value < 0 ==> Version::try_from_spec(value) == Err::<Version, Error>(
            Error::of_code(value as i64),
        ),
        version.major < 0x8000 ==> Version::try_from_spec(version.packed() as i32) == Ok::<
            Version,
            Error,
        >(version),
{
}

/// The codes 0, 1 and 2 decode to the three affinity states. Every other code, the negative
/// ones too, decodes to the error that the code stands for: a named error where the code has
/// a name, else the `Unknown` that carries the code. Either way the error keeps the code.
pub proof fn lemma_affinity_state_decoding(code: i64, narrow: i32)
    ensures
        AffinityState::decoded(0) == Ok::<AffinityState, Error>(AffinityState::On),
        AffinityState::decoded(1) == Ok::<AffinityState, Error>(AffinityState::Off),
        AffinityState::decoded(2) == Ok::<AffinityState, Error>(AffinityState::OnPending),
        AffinityState::decoded(code) is Ok <==> 0 <= code <= 2,
        !(0 <= code <= 2) ==> AffinityState::decoded(code) == Err::<AffinityState, Error>(
            <Error as FromSpec<i64>>::from_spec(code),
        ),
        !(0 <= code <= 2) && !Error::is_named_code(code as int) ==> AffinityState::decoded(code)
            == Err::<AffinityState, Error>(Error::Unknown(code)),
        AffinityState::decoded(code) matches Err(error) ==> error.code() == code,
        <AffinityState as TryFromSpec<i64>>::try_from_spec(code) == AffinityState::decoded(code),
        <AffinityState as TryFromSpec<i32>>::try_from_spec(narrow) == AffinityState::decoded(
            narrow as i64,
        ),
{
}

/// The codes 0, 1 and 2 decode to the three levels of multicore support. Every other code,
/// the negative ones too, decodes to the error that the code stands for, which keeps the
/// code.
pub proof fn lemma_migrate_type_decoding(code: i64, narrow: i32)
    ensures
        MigrateType::decoded(0) == Ok::<MigrateType, Error>(MigrateType::MigrateCapable),
        MigrateType::decoded(1) == Ok::<MigrateType, Error>(MigrateType::NotMigrateCapable),
        MigrateType::decoded(2) == Ok::<MigrateType, Error>(MigrateType::MigrationNotRequired),
        MigrateType::decoded(code) is Ok <==> 0 <= code <= 2,
        !(0 <= code <= 2) ==> MigrateType::decoded(code) == Err::<MigrateType, Error>(
            <Error as FromSpec<i64>>::from_spec(code),
        ),
        !(0 <= code <= 2) && !Error::is_named_code(code as int) ==> MigrateType::decoded(code)
            == Err::<MigrateType, Error>(Error::Unknown(code)),
        MigrateType::decoded(code) matches Err(error) ==> error.code() == code,
        <MigrateType as TryFromSpec<i32>>::try_from_spec(narrow) == MigrateType::decoded(
            narrow as i64,
        ),
{
}

/// The codes 0, 1 and 2 decode to the three hardware power states. Every other code, the
/// negative ones too, decodes to the error that the code stands for, which keeps the code.
pub proof fn lemma_power_state_decoding(code: i64, narrow: i32)
    ensures
        PowerState::decoded(0) == Ok::<PowerState, Error>(PowerState::HwOn),
        PowerState::decoded(1) == Ok::<PowerState, Error>(PowerState::HwOff),
        PowerState::decoded(2) == Ok::<PowerState, Error>(PowerState::HwStandby),
        PowerState::decoded(code) is Ok <==> 0 <= code <= 2,
        !(0 <= code <= 2) ==> PowerState::decoded(code) == Err::<PowerState, Error>(
            <Error as FromSpec<i64>>::from_spec(code),
        ),
        !(0 <= code <= 2) && !Error::is_named_code(code as int) ==> PowerState::decoded(code)
            == Err::<PowerState, Error>(Error::Unknown(code)),
        PowerState::decoded(code) matches Err(error) ==> error.code() == code,
        <PowerState as TryFromSpec<i64>>::try_from_spec(code) == PowerState::decoded(code),
        <PowerState as TryFromSpec<i32>>::try_from_spec(narrow) == PowerState::decoded(
            narrow as i64,
        ),
{
}

} // verus!
