//! Functions to make PSCI calls.
//!
//! Each function packs its parameters into the first positions of the argument vector, makes
//! one call through the mechanism `C`, and decodes the first word of the result vector. Its
//! contract names the identifier and the argument vector that the call is made with, and says
//! how the result follows from the first result word.

use vstd::prelude::*;
use vstd::std_specs::convert::{FromSpec, TryFromSpec};

use super::error::Error;
use super::{
    AffinityState, LowestAffinityLevel, MigrateType, PowerState, SuspendMode, Version,
    PSCI_AFFINITY_INFO_32, PSCI_AFFINITY_INFO_64, PSCI_CPU_DEFAULT_SUSPEND_32,
    PSCI_CPU_DEFAULT_SUSPEND_64, PSCI_CPU_FREEZE, PSCI_CPU_OFF, PSCI_CPU_ON_32, PSCI_CPU_ON_64,
    PSCI_CPU_SUSPEND_32, PSCI_CPU_SUSPEND_64, PSCI_FEATURES, PSCI_MEM_PROTECT,
    PSCI_MEM_PROTECT_CHECK_RANGE_32, PSCI_MEM_PROTECT_CHECK_RANGE_64, PSCI_MIGRATE_32,
    PSCI_MIGRATE_64, PSCI_MIGRATE_INFO_TYPE, PSCI_MIGRATE_INFO_UP_CPU_32,
    PSCI_MIGRATE_INFO_UP_CPU_64, PSCI_NODE_HW_STATE_32, PSCI_NODE_HW_STATE_64,
    PSCI_SET_SUSPEND_MODE, PSCI_STAT_COUNT_32, PSCI_STAT_COUNT_64, PSCI_STAT_RESIDENCY_32,
    PSCI_STAT_RESIDENCY_64, PSCI_SYSTEM_OFF, PSCI_SYSTEM_RESET, PSCI_SYSTEM_RESET2_32,
    PSCI_SYSTEM_RESET2_64, PSCI_SYSTEM_SUSPEND_32, PSCI_SYSTEM_SUSPEND_64, PSCI_VERSION,
};
use crate::error::{
    payload32, positive_or_error_32, signed32, signed64, status32, status64, success_or_error_32,
    success_or_error_64, to_signed32, to_signed64,
};
use crate::{
    args32, args64, first_word32, first_word64, flag, may_return32, may_return64, Call,
};

verus! {

/// What the first result word of `MEM_PROTECT` means: 0 and 1 say whether memory protection
/// was off or on before the call, and any other word is the error that it stands for when
/// read as a signed number.
pub open spec fn protection_before(word: u32) -> Result<bool, Error> {
    if word == 0 {
        Ok(false)
    } else if word == 1 {
        Ok(true)
    } else {
        Err(Error::of_code(signed32(word) as i64))
    }
}

/// Returns the version of PSCI implemented.
pub fn version<C: Call>() -> (r: Result<Version, Error>)
    ensures
        ({
            let args = args32(seq![]);
            exists|word: u32| #[trigger]
                may_return32::<C>(PSCI_VERSION, args, word)
                    && r == Version::try_from_spec(signed32(word))
        }),
{
    let args: [u32; 7] = [0; 7];
    assert(args@ =~= args32(seq![]));
    Version::try_from(to_signed32(first_word32::<C>(PSCI_VERSION, args)))
}

/// Suspends execution of a core or topology node.
pub fn cpu_suspend<C: Call>(
    power_state: u32,
    entry_point_address: u64,
    context_id: u64,
) -> (r: Result<(), Error>)
    ensures
        ({
            let args = args64(seq![power_state as u64, entry_point_address, context_id]);
            exists|word: u64| #[trigger]
                may_return64::<C>(PSCI_CPU_SUSPEND_64, args, word) && r == status64::<Error>(word)
        }),
{
    let args: [u64; 17] = [
        power_state.into(), entry_point_address, context_id, 0, 0, 0, 0, 0, 0, 0, 0, 0, 0, 0, 0, 0,
        0,
    ];
    assert(args@ =~= args64(seq![power_state as u64, entry_point_address, context_id]));
    success_or_error_64(first_word64::<C>(PSCI_CPU_SUSPEND_64, args))
}

/// Suspends execution of a core or topology node.
pub fn cpu_suspend_32<C: Call>(
    power_state: u32,
    entry_point_address: u32,
    context_id: u32,
) -> (r: Result<(), Error>)
    ensures
        ({
            let args = args32(seq![power_state, entry_point_address, context_id]);
            exists|word: u32| #[trigger]
                may_return32::<C>(PSCI_CPU_SUSPEND_32, args, word) && r == status32::<Error>(word)
        }),
{
    let args: [u32; 7] = [power_state, entry_point_address, context_id, 0, 0, 0, 0];
    assert(args@ =~= args32(seq![power_state, entry_point_address, context_id]));
    success_or_error_32(first_word32::<C>(PSCI_CPU_SUSPEND_32, args))
}

/// Powers down the current core.
pub fn cpu_off<C: Call>() -> (r: Result<(), Error>)
    ensures
        ({
            let args = args32(seq![]);
            exists|word: u32| #[trigger]
                may_return32::<C>(PSCI_CPU_OFF, args, word) && r == status32::<Error>(word)
        }),
{
    let args: [u32; 7] = [0; 7];
    assert(args@ =~= args32(seq![]));
    success_or_error_32(first_word32::<C>(PSCI_CPU_OFF, args))
}

/// Powers up a core.
pub fn cpu_on<C: Call>(
    target_cpu: u64,
    entry_point_address: u64,
    context_id: u64,
) -> (r: Result<(), Error>)
    ensures
        ({
            let args = args64(seq![target_cpu, entry_point_address, context_id]);
            exists|word: u64| #[trigger]
                may_return64::<C>(PSCI_CPU_ON_64, args, word) && r == status64::<Error>(word)
        }),
{
    let args: [u64; 17] = [
        target_cpu, entry_point_address, context_id, 0, 0, 0, 0, 0, 0, 0, 0, 0, 0, 0, 0, 0, 0,
    ];
    assert(args@ =~= args64(seq![target_cpu, entry_point_address, context_id]));
    success_or_error_64(first_word64::<C>(PSCI_CPU_ON_64, args))
}

/// Powers up a core.
pub fn cpu_on_32<C: Call>(
    target_cpu: u32,
    entry_point_address: u32,
    context_id: u32,
) -> (r: Result<(), Error>)
    ensures
        ({
            let args = args32(seq![target_cpu, entry_point_address, context_id]);
            exists|word: u32| #[trigger]
                may_return32::<C>(PSCI_CPU_ON_32, args, word) && r == status32::<Error>(word)
        }),
{
    let args: [u32; 7] = [target_cpu, entry_point_address, context_id, 0, 0, 0, 0];
    assert(args@ =~= args32(seq![target_cpu, entry_point_address, context_id]));
    success_or_error_32(first_word32::<C>(PSCI_CPU_ON_32, args))
}

/// Gets the status of an affinity instance.
pub fn affinity_info<C: Call>(
    target_affinity: u64,
    lowest_affinity_level: LowestAffinityLevel,
) -> (r: Result<AffinityState, Error>)
    ensures
        ({
            let args = args64(seq![target_affinity, lowest_affinity_level.code() as u64]);
            exists|word: u64| #[trigger]
                may_return64::<C>(PSCI_AFFINITY_INFO_64, args, word)
                    && r == AffinityState::decoded(signed64(word))
        }),
{
    let args: [u64; 17] = [
        target_affinity, lowest_affinity_level.into(), 0, 0, 0, 0, 0, 0, 0, 0, 0, 0, 0, 0, 0, 0, 0,
    ];
    assert(args@ =~= args64(seq![target_affinity, lowest_affinity_level.code() as u64]));
    AffinityState::try_from(to_signed64(first_word64::<C>(PSCI_AFFINITY_INFO_64, args)))
}

/// Gets the status of an affinity instance.
pub fn affinity_info_32<C: Call>(
    target_affinity: u32,
    lowest_affinity_level: LowestAffinityLevel,
) -> (r: Result<AffinityState, Error>)
    ensures
        ({
            let args = args32(seq![target_affinity, lowest_affinity_level.code() as u32]);
            exists|word: u32| #[trigger]
                may_return32::<C>(PSCI_AFFINITY_INFO_32, args, word)
                    && r == AffinityState::decoded(signed32(word) as i64)
        }),
{
    let args: [u32; 7] = [target_affinity, lowest_affinity_level.into(), 0, 0, 0, 0, 0];
    assert(args@ =~= args32(seq![target_affinity, lowest_affinity_level.code() as u32]));
    AffinityState::try_from(to_signed32(first_word32::<C>(PSCI_AFFINITY_INFO_32, args)))
}

/// Asks the Trusted OS to migrate its context to a specific core.
pub fn migrate<C: Call>(target_cpu: u64) -> (r: Result<(), Error>)
    ensures
        ({
            let args = args64(seq![target_cpu]);
            exists|word: u64| #[trigger]
                may_return64::<C>(PSCI_MIGRATE_64, args, word) && r == status64::<Error>(word)
        }),
{
    let args: [u64; 17] = [target_cpu, 0, 0, 0, 0, 0, 0, 0, 0, 0, 0, 0, 0, 0, 0, 0, 0];
    assert(args@ =~= args64(seq![target_cpu]));
    success_or_error_64(first_word64::<C>(PSCI_MIGRATE_64, args))
}

/// Asks the Trusted OS to migrate its context to a specific core.
pub fn migrate_32<C: Call>(target_cpu: u32) -> (r: Result<(), Error>)
    ensures
        ({
            let args = args32(seq![target_cpu]);
            exists|word: u32| #[trigger]
                may_return32::<C>(PSCI_MIGRATE_32, args, word) && r == status32::<Error>(word)
        }),
{
    let args: [u32; 7] = [target_cpu, 0, 0, 0, 0, 0, 0];
    assert(args@ =~= args32(seq![target_cpu]));
    success_or_error_32(first_word32::<C>(PSCI_MIGRATE_32, args))
}

/// Identifies the level of multicore support in the Trusted OS.
pub fn migrate_info_type<C: Call>() -> (r: Result<MigrateType, Error>)
    ensures
        ({
            let args = args32(seq![]);
            exists|word: u32| #[trigger]
                may_return32::<C>(PSCI_MIGRATE_INFO_TYPE, args, word)
                    && r == MigrateType::decoded(signed32(word) as i64)
        }),
{
    let args: [u32; 7] = [0; 7];
    assert(args@ =~= args32(seq![]));
    MigrateType::try_from(to_signed32(first_word32::<C>(PSCI_MIGRATE_INFO_TYPE, args)))
}

/// Returns the MPIDR value of the current resident core of the Trusted OS.
pub fn migrate_info_up_cpu<C: Call>() -> (r: u64)
    ensures
        may_return64::<C>(PSCI_MIGRATE_INFO_UP_CPU_64, args64(seq![]), r),
{
    let args: [u64; 17] = [0; 17];
    assert(args@ =~= args64(seq![]));
    first_word64::<C>(PSCI_MIGRATE_INFO_UP_CPU_64, args)
}

/// Returns the MPIDR value of the current resident core of the Trusted OS.
pub fn migrate_info_up_cpu_32<C: Call>() -> (r: u32)
    ensures
        may_return32::<C>(PSCI_MIGRATE_INFO_UP_CPU_32, args32(seq![]), r),
{
    let args: [u32; 7] = [0; 7];
    assert(args@ =~= args32(seq![]));
    first_word32::<C>(PSCI_MIGRATE_INFO_UP_CPU_32, args)
}

/// Shuts down the system.
pub fn system_off<C: Call>() -> (r: Result<(), Error>)
    ensures
        ({
            let args = args32(seq![]);
            exists|word: u32| #[trigger]
                may_return32::<C>(PSCI_SYSTEM_OFF, args, word) && r == status32::<Error>(word)
        }),
{
    let args: [u32; 7] = [0; 7];
    assert(args@ =~= args32(seq![]));
    success_or_error_32(first_word32::<C>(PSCI_SYSTEM_OFF, args))
}

/// Resets the system.
pub fn system_reset<C: Call>() -> (r: Result<(), Error>)
    ensures
        ({
            let args = args32(seq![]);
            exists|word: u32| #[trigger]
                may_return32::<C>(PSCI_SYSTEM_RESET, args, word) && r == status32::<Error>(word)
        }),
{
    let args: [u32; 7] = [0; 7];
    assert(args@ =~= args32(seq![]));
    success_or_error_32(first_word32::<C>(PSCI_SYSTEM_RESET, args))
}

/// Resets the system in an architectural or vendor-specific way.
pub fn system_reset2<C: Call>(reset_type: u32, cookie: u64) -> (r: Result<(), Error>)
    ensures
        ({
            let args = args64(seq![reset_type as u64, cookie]);
            exists|word: u64| #[trigger]
                may_return64::<C>(PSCI_SYSTEM_RESET2_64, args, word) && r == status64::<Error>(word)
        }),
{
    let args: [u64; 17] = [reset_type.into(), cookie, 0, 0, 0, 0, 0, 0, 0, 0, 0, 0, 0, 0, 0, 0, 0];
    assert(args@ =~= args64(seq![reset_type as u64, cookie]));
    success_or_error_64(first_word64::<C>(PSCI_SYSTEM_RESET2_64, args))
}

/// Resets the system in an architectural or vendor-specific way.
pub fn system_reset2_32<C: Call>(reset_type: u32, cookie: u32) -> (r: Result<(), Error>)
    ensures
        ({
            let args = args32(seq![reset_type, cookie]);
            exists|word: u32| #[trigger]
                may_return32::<C>(PSCI_SYSTEM_RESET2_32, args, word) && r == status32::<Error>(word)
        }),
{
    let args: [u32; 7] = [reset_type, cookie, 0, 0, 0, 0, 0];
    assert(args@ =~= args32(seq![reset_type, cookie]));
    success_or_error_32(first_word32::<C>(PSCI_SYSTEM_RESET2_32, args))
}

/// Enables or disables memory protection.
///
/// Returns whether memory protection was enabled before the call.
pub fn mem_protect<C: Call>(enable: bool) -> (r: Result<bool, Error>)
    ensures
        ({
            let args = args32(seq![flag(enable)]);
            exists|word: u32| #[trigger]
                may_return32::<C>(PSCI_MEM_PROTECT, args, word) && r == protection_before(word)
        }),
{
    let args: [u32; 7] = [if enable { 1 } else { 0 }, 0, 0, 0, 0, 0, 0];
    assert(args@ =~= args32(seq![flag(enable)]));
    match to_signed32(first_word32::<C>(PSCI_MEM_PROTECT, args)) {
        0 => Ok(false),
        1 => Ok(true),
        error => Err(error.into()),
    }
}

/// Checks whether a memory range is protected by `MEM_PROTECT`.
pub fn mem_protect_check_range<C: Call>(base: u64, length: u64) -> (r: Result<(), Error>)
    ensures
        ({
            let args = args64(seq![base, length]);
            exists|word: u64| #[trigger]
                may_return64::<C>(PSCI_MEM_PROTECT_CHECK_RANGE_64, args, word)
                    && r == status64::<Error>(word)
        }),
{
    let args: [u64; 17] = [base, length, 0, 0, 0, 0, 0, 0, 0, 0, 0, 0, 0, 0, 0, 0, 0];
    assert(args@ =~= args64(seq![base, length]));
    success_or_error_64(first_word64::<C>(PSCI_MEM_PROTECT_CHECK_RANGE_64, args))
}

/// Checks whether a memory range is protected by `MEM_PROTECT`.
pub fn mem_protect_check_range_32<C: Call>(base: u32, length: u32) -> (r: Result<(), Error>)
    ensures
        ({
            let args = args32(seq![base, length]);
            exists|word: u32| #[trigger]
                may_return32::<C>(PSCI_MEM_PROTECT_CHECK_RANGE_32, args, word)
                    && r == status32::<Error>(word)
        }),
{
    let args: [u32; 7] = [base, length, 0, 0, 0, 0, 0];
    assert(args@ =~= args32(seq![base, length]));
    success_or_error_32(first_word32::<C>(PSCI_MEM_PROTECT_CHECK_RANGE_32, args))
}

/// Queries whether `SMCCC_VERSION` or a specific PSCI function is implemented, and what features
/// are supported.
pub fn psci_features<C: Call>(psci_function_id: u32) -> (r: Result<u32, Error>)
    ensures
        ({
            let args = args32(seq![psci_function_id]);
            exists|word: u32| #[trigger]
                may_return32::<C>(PSCI_FEATURES, args, word) && r == payload32::<Error>(word)
        }),
{
    let args: [u32; 7] = [psci_function_id, 0, 0, 0, 0, 0, 0];
    assert(args@ =~= args32(seq![psci_function_id]));
    positive_or_error_32(first_word32::<C>(PSCI_FEATURES, args))
}

/// Puts the current core into an implementation-defined low power state.
pub fn cpu_freeze<C: Call>() -> (r: Result<(), Error>)
    ensures
        ({
            let args = args32(seq![]);
            exists|word: u32| #[trigger]
                may_return32::<C>(PSCI_CPU_FREEZE, args, word) && r == status32::<Error>(word)
        }),
{
    let args: [u32; 7] = [0; 7];
    assert(args@ =~= args32(seq![]));
    success_or_error_32(first_word32::<C>(PSCI_CPU_FREEZE, args))
}

/// Puts the current core into an implementation-defined low power state.
pub fn cpu_default_suspend<C: Call>(
    entry_point_address: u64,
    context_id: u64,
) -> (r: Result<(), Error>)
    ensures
        ({
            let args = args64(seq![entry_point_address, context_id]);
            exists|word: u64| #[trigger]
                may_return64::<C>(PSCI_CPU_DEFAULT_SUSPEND_64, args, word)
                    && r == status64::<Error>(word)
        }),
{
    let args: [u64; 17] = [
        entry_point_address, context_id, 0, 0, 0, 0, 0, 0, 0, 0, 0, 0, 0, 0, 0, 0, 0,
    ];
    assert(args@ =~= args64(seq![entry_point_address, context_id]));
    success_or_error_64(first_word64::<C>(PSCI_CPU_DEFAULT_SUSPEND_64, args))
}

/// Puts the current core into an implementation-defined low power state.
pub fn cpu_default_suspend_32<C: Call>(
    entry_point_address: u32,
    context_id: u32,
) -> (r: Result<(), Error>)
    ensures
        ({
            let args = args32(seq![entry_point_address, context_id]);
            exists|word: u32| #[trigger]
                may_return32::<C>(PSCI_CPU_DEFAULT_SUSPEND_32, args, word)
                    && r == status32::<Error>(word)
        }),
{
    let args: [u32; 7] = [entry_point_address, context_id, 0, 0, 0, 0, 0];
    assert(args@ =~= args32(seq![entry_point_address, context_id]));
    success_or_error_32(first_word32::<C>(PSCI_CPU_DEFAULT_SUSPEND_32, args))
}

/// Returns the true hardware state of a node in the power domain topology.
pub fn node_hw_state<C: Call>(target_cpu: u64, power_level: u32) -> (r: Result<PowerState, Error>)
    ensures
        ({
            let args = args64(seq![target_cpu, power_level as u64]);
            exists|word: u64| #[trigger]
                may_return64::<C>(PSCI_NODE_HW_STATE_64, args, word)
                    && r == PowerState::decoded(signed64(word))
        }),
{
    let args: [u64; 17] = [
        target_cpu, power_level.into(), 0, 0, 0, 0, 0, 0, 0, 0, 0, 0, 0, 0, 0, 0, 0,
    ];
    assert(args@ =~= args64(seq![target_cpu, power_level as u64]));
    PowerState::try_from(to_signed64(first_word64::<C>(PSCI_NODE_HW_STATE_64, args)))
}

/// Returns the true hardware state of a node in the power domain topology.
pub fn node_hw_state_32<C: Call>(
    target_cpu: u32,
    power_level: u32,
) -> (r: Result<PowerState, Error>)
    ensures
        ({
            let args = args32(seq![target_cpu, power_level]);
            exists|word: u32| #[trigger]
                may_return32::<C>(PSCI_NODE_HW_STATE_32, args, word)
                    && r == PowerState::decoded(signed32(word) as i64)
        }),
{
    let args: [u32; 7] = [target_cpu, power_level, 0, 0, 0, 0, 0];
    assert(args@ =~= args32(seq![target_cpu, power_level]));
    PowerState::try_from(to_signed32(first_word32::<C>(PSCI_NODE_HW_STATE_32, args)))
}

/// Suspends the system to RAM.
pub fn system_suspend<C: Call>(entry_point_address: u64, context_id: u64) -> (r: Result<(), Error>)
    ensures
        ({
            let args = args64(seq![entry_point_address, context_id]);
            exists|word: u64| #[trigger]
                may_return64::<C>(PSCI_SYSTEM_SUSPEND_64, args, word)
                    && r == status64::<Error>(word)
        }),
{
    let args: [u64; 17] = [
        entry_point_address, context_id, 0, 0, 0, 0, 0, 0, 0, 0, 0, 0, 0, 0, 0, 0, 0,
    ];
    assert(args@ =~= args64(seq![entry_point_address, context_id]));
    success_or_error_64(first_word64::<C>(PSCI_SYSTEM_SUSPEND_64, args))
}

/// Suspends the system to RAM.
pub fn system_suspend_32<C: Call>(
    entry_point_address: u32,
    context_id: u32,
) -> (r: Result<(), Error>)
    ensures
        ({
            let args = args32(seq![entry_point_address, context_id]);
            exists|word: u32| #[trigger]
                may_return32::<C>(PSCI_SYSTEM_SUSPEND_32, args, word)
                    && r == status32::<Error>(word)
        }),
{
    let args: [u32; 7] = [entry_point_address, context_id, 0, 0, 0, 0, 0];
    assert(args@ =~= args32(seq![entry_point_address, context_id]));
    success_or_error_32(first_word32::<C>(PSCI_SYSTEM_SUSPEND_32, args))
}

/// Sets the mode used by `CPU_SUSPEND`.
pub fn set_suspend_mode<C: Call>(mode: SuspendMode) -> (r: Result<(), Error>)
    ensures
        ({
            let args = args32(seq![u32::from_spec(mode)]);
            exists|word: u32| #[trigger]
                may_return32::<C>(PSCI_SET_SUSPEND_MODE, args, word) && r == status32::<Error>(word)
        }),
{
    let args: [u32; 7] = [mode.into(), 0, 0, 0, 0, 0, 0];
    assert(args@ =~= args32(seq![u32::from_spec(mode)]));
    success_or_error_32(first_word32::<C>(PSCI_SET_SUSPEND_MODE, args))
}

/// Returns the amount of time in microseconds that the platform has spent in the given power state
/// since cold boot.
pub fn stat_residency<C: Call>(target_cpu: u64, power_state: u32) -> (r: u64)
    ensures
        may_return64::<C>(PSCI_STAT_RESIDENCY_64, args64(seq![target_cpu, power_state as u64]), r),
{
    let args: [u64; 17] = [
        target_cpu, power_state.into(), 0, 0, 0, 0, 0, 0, 0, 0, 0, 0, 0, 0, 0, 0, 0,
    ];
    assert(args@ =~= args64(seq![target_cpu, power_state as u64]));
    first_word64::<C>(PSCI_STAT_RESIDENCY_64, args)
}

/// Returns the amount of time in microseconds that the platform has spent in the given power state
/// since cold boot.
pub fn stat_residency_32<C: Call>(target_cpu: u32, power_state: u32) -> (r: u32)
    ensures
        may_return32::<C>(PSCI_STAT_RESIDENCY_32, args32(seq![target_cpu, power_state]), r),
{
    let args: [u32; 7] = [target_cpu, power_state, 0, 0, 0, 0, 0];
    assert(args@ =~= args32(seq![target_cpu, power_state]));
    first_word32::<C>(PSCI_STAT_RESIDENCY_32, args)
}

/// Returns the number of times the platform has used the given power state since cold boot.
pub fn stat_count<C: Call>(target_cpu: u64, power_state: u32) -> (r: u64)
    ensures
        may_return64::<C>(PSCI_STAT_COUNT_64, args64(seq![target_cpu, power_state as u64]), r),
{
    let args: [u64; 17] = [
        target_cpu, power_state.into(), 0, 0, 0, 0, 0, 0, 0, 0, 0, 0, 0, 0, 0, 0, 0,
    ];
    assert(args@ =~= args64(seq![target_cpu, power_state as u64]));
    first_word64::<C>(PSCI_STAT_COUNT_64, args)
}

/// Returns the number of times the platform has used the given power state since cold boot.
pub fn stat_count_32<C: Call>(target_cpu: u32, power_state: u32) -> (r: u32)
    ensures
        may_return32::<C>(PSCI_STAT_COUNT_32, args32(seq![target_cpu, power_state]), r),
{
    let args: [u32; 7] = [target_cpu, power_state, 0, 0, 0, 0, 0];
    assert(args@ =~= args32(seq![target_cpu, power_state]));
    first_word32::<C>(PSCI_STAT_COUNT_32, args)
}

} // verus!
