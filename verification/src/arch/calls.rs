//! Functions to make the standard Arm architecture calls.
//!
//! Each function packs its parameters into the first positions of the argument vector, makes
//! one 32-bit call through the mechanism `C`, and decodes the first word of the result
//! vector. Its contract names the identifier and the argument vector that the call is made
//! with, and says how the result follows from the first result word.

use vstd::prelude::*;
use vstd::std_specs::convert::{FromSpec, TryFromSpec};

use super::error::Error;
use super::{
    SocIdType, Version, SMCCC_ARCH_FEATURES, SMCCC_ARCH_SOC_ID, SMCCC_ARCH_WORKAROUND_1,
    SMCCC_ARCH_WORKAROUND_2, SMCCC_ARCH_WORKAROUND_3, SMCCC_VERSION,
};
use crate::error::{
    payload32, positive_or_error_32, signed32, status32, success_or_error_32, to_signed32,
};
use crate::{args32, first_word32, flag, may_return32, Call};

verus! {

/// Returns the implemented version of the SMC Calling Convention.
pub fn version<C: Call>() -> (r: Result<Version, Error>)
    ensures
        ({
            let args = args32(seq![]);
            exists|word: u32| #[trigger]
                may_return32::<C>(SMCCC_VERSION, args, word)
                    && r == Version::try_from_spec(signed32(word))
        }),
{
    let args: [u32; 7] = [0; 7];
    assert(args@ =~= args32(seq![]));
    Version::try_from(to_signed32(first_word32::<C>(SMCCC_VERSION, args)))
}

/// Returns whether the given Arm Architecture Service function is implemented, and any feature
/// flags specific to the function.
pub fn features<C: Call>(arch_func_id: u32) -> (r: Result<u32, Error>)
    ensures
        ({
            let args = args32(seq![arch_func_id]);
            exists|word: u32| #[trigger]
                may_return32::<C>(SMCCC_ARCH_FEATURES, args, word) && r == payload32::<Error>(word)
        }),
{
    let args: [u32; 7] = [arch_func_id, 0, 0, 0, 0, 0, 0];
    assert(args@ =~= args32(seq![arch_func_id]));
    positive_or_error_32(first_word32::<C>(SMCCC_ARCH_FEATURES, args))
}

/// Returns the SiP defined SoC identification details.
pub fn soc_id<C: Call>(soc_id_type: SocIdType) -> (r: Result<u32, Error>)
    ensures
        ({
            let args = args32(seq![u32::from_spec(soc_id_type)]);
            exists|word: u32| #[trigger]
                may_return32::<C>(SMCCC_ARCH_SOC_ID, args, word) && r == payload32::<Error>(word)
        }),
{
    let args: [u32; 7] = [soc_id_type.into(), 0, 0, 0, 0, 0, 0];
    assert(args@ =~= args32(seq![u32::from_spec(soc_id_type)]));
    positive_or_error_32(first_word32::<C>(SMCCC_ARCH_SOC_ID, args))
}

/// Executes a firmware workaround to mitigate CVE-2017-5715.
pub fn arch_workaround_1<C: Call>() -> (r: Result<(), Error>)
    ensures
        ({
            let args = args32(seq![]);
            exists|word: u32| #[trigger]
                may_return32::<C>(SMCCC_ARCH_WORKAROUND_1, args, word)
                    && r == status32::<Error>(word)
        }),
{
    let args: [u32; 7] = [0; 7];
    assert(args@ =~= args32(seq![]));
    success_or_error_32(first_word32::<C>(SMCCC_ARCH_WORKAROUND_1, args))
}

/// Enables or disables the mitigation for CVE-2018-3639.
pub fn arch_workaround_2<C: Call>(enable: bool) -> (r: Result<(), Error>)
    ensures
        ({
            let args = args32(seq![flag(enable)]);
            exists|word: u32| #[trigger]
                may_return32::<C>(SMCCC_ARCH_WORKAROUND_2, args, word)
                    && r == status32::<Error>(word)
        }),
{
    let args: [u32; 7] = [if enable { 1 } else { 0 }, 0, 0, 0, 0, 0, 0];
    assert(args@ =~= args32(seq![flag(enable)]));
    success_or_error_32(first_word32::<C>(SMCCC_ARCH_WORKAROUND_2, args))
}

/// Executes a firmware workaround to mitigate CVE-2017-5715 and CVE-2022-23960.
pub fn arch_workaround_3<C: Call>() -> (r: Result<(), Error>)
    ensures
        ({
            let args = args32(seq![]);
            exists|word: u32| #[trigger]
                may_return32::<C>(SMCCC_ARCH_WORKAROUND_3, args, word)
                    && r == status32::<Error>(word)
        }),
{
    let args: [u32; 7] = [0; 7];
    assert(args@ =~= args32(seq![]));
    success_or_error_32(first_word32::<C>(SMCCC_ARCH_WORKAROUND_3, args))
}

} // verus!
