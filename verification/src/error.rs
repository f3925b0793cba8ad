//! Decoding of the first result word of a call.
//!
//! Firmware reports the outcome of a call in the first word of the result vector, read as a
//! signed number: zero or, for some calls, any non-negative value means success, and a
//! negative value names an error. The functions here tell the two apart and leave the
//! naming of the error to the error type of the caller's choice.

use vstd::prelude::*;
use vstd::std_specs::convert::FromSpec;

verus! {

/// A value commonly returned to indicate a successful SMCCC call.
pub const SUCCESS: i32 = 0;

/// A 32-bit result word read as a signed number in two's complement.
pub open spec fn signed32(value: u32) -> i32 {
    if value < 0x8000_0000 {
        value as i32
    } else {
        (value - 0x1_0000_0000) as i32
    }
}

/// A 64-bit result word read as a signed number in two's complement.
pub open spec fn signed64(value: u64) -> i64 {
    if value < 0x8000_0000_0000_0000 {
        value as i64
    } else {
        (value - 0x1_0000_0000_0000_0000) as i64
    }
}

/// What a 32-bit result word means under the success-or-error rule: zero is success, and any
/// other word is the error that `E` makes of the word read as a signed number.
pub open spec fn status32<E: From<i32>>(value: u32) -> Result<(), E> {
    if value == 0 {
        Ok(())
    } else {
        Err(E::from_spec(signed32(value)))
    }
}

/// What a 64-bit result word means under the success-or-error rule.
pub open spec fn status64<E: From<i64>>(value: u64) -> Result<(), E> {
    if value == 0 {
        Ok(())
    } else {
        Err(E::from_spec(signed64(value)))
    }
}

/// What a 32-bit result word means under the positive-or-error rule: a word with its high bit
/// clear is the payload, and any other word is the error that `E` makes of the word read as
/// a signed number.
pub open spec fn payload32<E: From<i32>>(value: u32) -> Result<u32, E> {
    if signed32(value) < 0 {
        Err(E::from_spec(signed32(value)))
    } else {
        Ok(value)
    }
}

/// What a 64-bit result word means under the positive-or-error rule.
pub open spec fn payload64<E: From<i64>>(value: u64) -> Result<u64, E> {
    if signed64(value) < 0 {
        Err(E::from_spec(signed64(value)))
    } else {
        Ok(value)
    }
}

/// Reads a 32-bit result word as a signed number.
pub fn to_signed32(value: u32) -> (signed: i32)
    ensures
        signed == signed32(value),
{
    let signed = #[verifier::truncate] (value as i32);
    assert(signed == signed32(value)) by (bit_vector)
        requires
            signed == value as i32,
    ;
    signed
}

/// Reads a 64-bit result word as a signed number.
pub fn to_signed64(value: u64) -> (signed: i64)
    ensures
        signed == signed64(value),
{
    let signed = #[verifier::truncate] (value as i64);
    assert(signed == signed64(value)) by (bit_vector)
        requires
            signed == value as i64,
    ;
    signed
}

/// Converts the given value (returned from an HVC32 or SMC32 call) either to `Ok(())` if it is
/// equal to [`SUCCESS`], or else an error of the given type.
pub fn success_or_error_32<E: From<i32>>(value: u32) -> (r: Result<(), E>)
    ensures
        r is Ok <==> value == 0,
        r matches Err(e) ==> call_ensures(E::from, (signed32(value),), e),
        E::obeys_from_spec() ==> r == status32::<E>(value),
{
    let signed = to_signed32(value);
    if signed == SUCCESS {
        Ok(())
    } else {
        Err(E::from(signed))
    }
}

/// Converts the given value (returned from an HVC64 or SMC64 call) either to `Ok(())` if it is
/// equal to [`SUCCESS`], or else an error of the given type.
pub fn success_or_error_64<E: From<i64>>(value: u64) -> (r: Result<(), E>)
    ensures
        r is Ok <==> value == 0,
        r matches Err(e) ==> call_ensures(E::from, (signed64(value),), e),
        E::obeys_from_spec() ==> r == status64::<E>(value),
{
    let signed = to_signed64(value);
    if signed == 0 {
        Ok(())
    } else {
        Err(E::from(signed))
    }
}

/// Returns `Ok(value)` if the given value has its high bit unset (i.e. would be positive when
/// treated as a signed value), or an error of the given type if the high bit is set.
///
/// This is intended to be used with the return value of a 32-bit call.
pub fn positive_or_error_32<E: From<i32>>(value: u32) -> (r: Result<u32, E>)
    ensures
        r is Ok <==> value < 0x8000_0000,
        r matches Ok(payload) ==> payload == value,
        r matches Err(e) ==> call_ensures(E::from, (signed32(value),), e),
        E::obeys_from_spec() ==> r == payload32::<E>(value),
{
    let signed = to_signed32(value);
    if signed < 0 {
        Err(E::from(signed))
    } else {
        Ok(value)
    }
}

/// Returns `Ok(value)` if the given value has its high bit unset (i.e. would be positive when
/// treated as a signed value), or an error of the given type if the high bit is set.
///
/// This is intended to be used with the return value of a 64-bit call.
pub fn positive_or_error_64<E: From<i64>>(value: u64) -> (r: Result<u64, E>)
    ensures
        r is Ok <==> value < 0x8000_0000_0000_0000,
        r matches Ok(payload) ==> payload == value,
        r matches Err(e) ==> call_ensures(E::from, (signed64(value),), e),
        E::obeys_from_spec() ==> r == payload64::<E>(value),
{
    let signed = to_signed64(value);
    if signed < 0 {
        Err(E::from(signed))
    } else {
        Ok(value)
    }
}

/// Under the success-or-error rule in 32 bits the zero word is success, and every other word
/// is the error that `E` makes of it.
pub proof fn lemma_status32_is_ok_only_at_zero<E: From<i32>>(value: u32)
    ensures
        status32::<E>(0) == Ok::<(), E>(()),
        status32::<E>(value) is Ok <==> value == 0,
        value != 0 ==> status32::<E>(value) == Err::<(), E>(E::from_spec(signed32(value))),
        value != 0 ==> signed32(value) != 0,
{
}

/// Under the success-or-error rule in 64 bits the zero word is success, and every other word
/// is the error that `E` makes of it.
pub proof fn lemma_status64_is_ok_only_at_zero<E: From<i64>>(value: u64)
    ensures
        status64::<E>(0) == Ok::<(), E>(()),
        status64::<E>(value) is Ok <==> value == 0,
        value != 0 ==> status64::<E>(value) == Err::<(), E>(E::from_spec(signed64(value))),
        value != 0 ==> signed64(value) != 0,
{
}

/// Under the positive-or-error rule in 32 bits a word that is not negative when read as a
/// signed number is its own payload, and a negative one gives the error that the
/// success-or-error rule gives for it.
pub proof fn lemma_payload32_agrees_with_status32<E: From<i32>>(value: u32)
    ensures
        signed32(value) >= 0 <==> value < 0x8000_0000,
        signed32(value) >= 0 ==> payload32::<E>(value) == Ok::<u32, E>(value),
        signed32(value) < 0 ==> payload32::<E>(value) is Err && status32::<E>(value) is Err
            && payload32::<E>(value)->Err_0 == status32::<E>(value)->Err_0,
{
}

/// Under the positive-or-error rule in 64 bits a word that is not negative when read as a
/// signed number is its own payload, and a negative one gives the error that the
/// success-or-error rule gives for it.
pub proof fn lemma_payload64_agrees_with_status64<E: From<i64>>(value: u64)
    ensures
        signed64(value) >= 0 <==> value < 0x8000_0000_0000_0000,
        signed64(value) >= 0 ==> payload64::<E>(value) == Ok::<u64, E>(value),
        signed64(value) < 0 ==> payload64::<E>(value) is Err && status64::<E>(value) is Err
            && payload64::<E>(value)->Err_0 == status64::<E>(value)->Err_0,
{
}

} // verus!
