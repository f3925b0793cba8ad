//! Error codes for standard Arm Architecture SMCCC calls.

use vstd::prelude::*;
use vstd::std_specs::convert::FromSpec;

pub use crate::error::SUCCESS;

verus! {

pub const NOT_SUPPORTED: i32 = -1;

pub const NOT_REQUIRED: i32 = -2;

pub const INVALID_PARAMETER: i32 = -3;

/// Errors for standard Arm Architecture calls.
#[derive(Copy, Clone, Debug, Eq, PartialEq, Structural)]
pub enum Error {
    /// The call is not supported by the implementation.
    NotSupported,
    /// The call is deemed not required by the implementation.
    NotRequired,
    /// One of the call parameters has a non-supported value.
    InvalidParameter,
    /// There was an unexpected return value.
    Unknown(i32),
}

impl Error {
    /// Whether `code` is one of the codes that name an error.
    pub open spec fn is_named_code(code: int) -> bool {
        code == NOT_SUPPORTED || code == NOT_REQUIRED || code == INVALID_PARAMETER
    }

    /// The raw code that stands for this error.
    pub open spec fn code(self) -> int {
        match self {
            Error::NotSupported => NOT_SUPPORTED as int,
            Error::NotRequired => NOT_REQUIRED as int,
            Error::InvalidParameter => INVALID_PARAMETER as int,
            Error::Unknown(value) => value as int,
        }
    }

    /// The error that a raw code stands for.
    pub open spec fn of_code(code: i32) -> Error {
        if code == NOT_SUPPORTED {
            Error::NotSupported
        } else if code == NOT_REQUIRED {
            Error::NotRequired
        } else if code == INVALID_PARAMETER {
            Error::InvalidParameter
        } else {
            Error::Unknown(code)
        }
    }

    /// Whether this error is the one that decoding gives for its own code: every error is,
    /// but an `Unknown` that carries a code with a name.
    pub open spec fn is_canonical(self) -> bool {
        self matches Error::Unknown(value) ==> !Self::is_named_code(value as int)
    }
}

impl From<Error> for i32 {
    fn from(error: Error) -> (code: i32) {
        match error {
            Error::NotSupported => NOT_SUPPORTED,
            Error::NotRequired => NOT_REQUIRED,
            Error::InvalidParameter => INVALID_PARAMETER,
            Error::Unknown(value) => value,
        }
    }
}

impl vstd::std_specs::convert::FromSpecImpl<Error> for i32 {
    open spec fn obeys_from_spec() -> bool {
        true
    }

    open spec fn from_spec(error: Error) -> i32 {
        error.code() as i32
    }
}

impl From<i32> for Error {
    fn from(value: i32) -> (error: Error) {
        match value {
            NOT_SUPPORTED => Error::NotSupported,
            NOT_REQUIRED => Error::NotRequired,
            INVALID_PARAMETER => Error::InvalidParameter,
            _ => Error::Unknown(value),
        }
    }
}

impl vstd::std_specs::convert::FromSpecImpl<i32> for Error {
    open spec fn obeys_from_spec() -> bool {
        true
    }

    open spec fn from_spec(value: i32) -> Error {
        Error::of_code(value)
    }
}

/// Encoding a named error and decoding the code gives the same error back. So it does for an
/// `Unknown` whose code has no name.
pub proof fn lemma_error_round_trip(error: Error)
    requires
        error.is_canonical(),
    ensures
        Error::from_spec(i32::from_spec(error)) == error,
{
}

/// Decoding a code and encoding the error gives the same code back. A code without a name
/// decodes to the `Unknown` that carries it.
pub proof fn lemma_code_round_trip(code: i32)
    ensures
        i32::from_spec(Error::from_spec(code)) == code,
        Error::from_spec(code).is_canonical(),
        !Error::is_named_code(code as int) ==> Error::from_spec(code) == Error::Unknown(code),
        Error::is_named_code(code as int) ==> !(Error::from_spec(code) is Unknown),
{
}

} // verus!
