//! Calls of the Arm SMC Calling Convention and of the Arm Power State Coordination Interface
//! (PSCI), with the decoding of what they return.
//!
//! Every call goes through a [`Call`]: the caller picks the trap mechanism as a type parameter
//! of the function that makes the call.

use vstd::prelude::*;

pub mod arch;
pub mod error;
pub mod psci;

verus! {

/// A way to reach the firmware or the hypervisor: one blocking trap per call.
///
/// Nothing is asked of an implementation but that it returns. What a call may return is spoken
/// of as `call_ensures(C::call32, (function, args), ret)`, so an implementation that states
/// more of its results hands that on to the callers of this crate's functions.
pub trait Call {
    /// Makes a call using the 32-bit calling convention.
    fn call32(function: u32, args: [u32; 7]) -> [u32; 8];

    /// Makes a call using the 64-bit calling convention.
    fn call64(function: u32, args: [u64; 17]) -> [u64; 18];
}

/// The argument vector of a 32-bit call: `lead` in its first positions, zero in the others.
pub open spec fn args32(lead: Seq<u32>) -> Seq<u32> {
    Seq::new(7, |i: int| if i < lead.len() { lead[i] } else { 0u32 })
}

/// The argument vector of a 64-bit call: `lead` in its first positions, zero in the others.
pub open spec fn args64(lead: Seq<u64>) -> Seq<u64> {
    Seq::new(17, |i: int| if i < lead.len() { lead[i] } else { 0u64 })
}

/// An argument vector has the length of its convention, holds the leading values in their
/// order, and is zero in every position after them.
pub proof fn lemma_args_shape(narrow: Seq<u32>, wide: Seq<u64>, i: int)
    ensures
        args32(narrow).len() == 7,
        args64(wide).len() == 17,
        0 <= i < 7 && i < narrow.len() ==> args32(narrow)[i] == narrow[i],
        narrow.len() <= i < 7 ==> args32(narrow)[i] == 0,
        0 <= i < 17 && i < wide.len() ==> args64(wide)[i] == wide[i],
        wide.len() <= i < 17 ==> args64(wide)[i] == 0,
{
}

/// The argument word that stands for a flag: 1 where it is set, 0 where it is not.
pub open spec fn flag(set: bool) -> u32 {
    if set {
        1
    } else {
        0
    }
}

/// Whether a 32-bit call of `function` through `C`, with the argument vector `args`, may
/// return a result vector whose first word is `word`.
pub open spec fn may_return32<C: Call>(function: u32, args: Seq<u32>, word: u32) -> bool {
    exists|sent: [u32; 7], ret: [u32; 8]|
        sent@ == args && ret@[0] == word && #[trigger] call_ensures(
            C::call32,
            (function, sent),
            ret,
        )
}

/// Whether a 64-bit call of `function` through `C`, with the argument vector `args`, may
/// return a result vector whose first word is `word`.
pub open spec fn may_return64<C: Call>(function: u32, args: Seq<u64>, word: u64) -> bool {
    exists|sent: [u64; 17], ret: [u64; 18]|
        sent@ == args && ret@[0] == word && #[trigger] call_ensures(
            C::call64,
            (function, sent),
            ret,
        )
}

/// Makes one 32-bit call and returns the first word of the result vector, the only one that
/// the calls of this crate read.
pub(crate) fn first_word32<C: Call>(function: u32, args: [u32; 7]) -> (word: u32)
    ensures
        may_return32::<C>(function, args@, word),
{
    let ret = C::call32(function, args);
    ret[0]
}

/// Makes one 64-bit call and returns the first word of the result vector, the only one that
/// the calls of this crate read.
pub(crate) fn first_word64<C: Call>(function: u32, args: [u64; 17]) -> (word: u64)
    ensures
        may_return64::<C>(function, args@, word),
{
    let ret = C::call64(function, args);
    ret[0]
}

} // verus!
