//! PSCI error codes.

use vstd::prelude::*;
use vstd::std_specs::convert::FromSpec;

pub use crate::error::SUCCESS;

verus! {

pub const NOT_SUPPORTED: i32 = -1;

pub const INVALID_PARAMETERS: i32 = -2;

pub const DENIED: i32 = -3;

pub const ALREADY_ON: i32 = -4;

pub const ON_PENDING: i32 = -5;

pub const INTERNAL_FAILURE: i32 = -6;

pub const NOT_PRESENT: i32 = -7;

pub const DISABLED: i32 = -8;

pub const INVALID_ADDRESS: i32 = -9;

/// Standard PSCI errors.
#[derive(Copy, Clone, Debug, Eq, PartialEq, Structural)]
pub enum Error {
    /// PSCI call not supported.
    NotSupported,
    /// Invalid parameters to PSCI call.
    InvalidParameters,
    /// PSCI call denied.
    Denied,
    /// Core already on.
    AlreadyOn,
    /// Core already being turned on.
    OnPending,
    /// Internal failure in PSCI call.
    InternalFailure,
    /// Trusted OS not present on target core.
    NotPresent,
    /// Core disabled.
    Disabled,
    /// Invalid address passed to PSCI call.
    InvalidAddress,
    /// An unexpected return value from a PSCI function.
    Unknown(i64),
}

impl Error {
    /// Whether `code` is one of the codes that name an error.
    pub open spec fn is_named_code(code: int) -> bool {
        INVALID_ADDRESS <= code <= NOT_SUPPORTED
    }

    /// The raw code that stands for this error.
    pub open spec fn code(self) -> int {
        match self {
            Error::NotSupported => NOT_SUPPORTED as int,
            Error::InvalidParameters => INVALID_PARAMETERS as int,
            Error::Denied => DENIED as int,
            Error::AlreadyOn => ALREADY_ON as int,
            Error::OnPending => ON_PENDING as int,
            Error::InternalFailure => INTERNAL_FAILURE as int,
            Error::NotPresent => NOT_PRESENT as int,
            Error::Disabled => DISABLED as int,
            Error::InvalidAddress => INVALID_ADDRESS as int,
            Error::Unknown(value) => value as int,
        }
    }

    /// The error that a raw code stands for. The code is taken at its full width: one that
    /// has no name is kept as it is, whether or not it fits in 32 bits.
    pub open spec fn of_code(code: i64) -> Error {
        if code == NOT_SUPPORTED {
            Error::NotSupported
        } else if code == INVALID_PARAMETERS {
            Error::InvalidParameters
        } else if code == DENIED {
            Error::Denied
        } else if code == ALREADY_ON {
            Error::AlreadyOn
        } else if code == ON_PENDING {
            Error::OnPending
        } else if code == INTERNAL_FAILURE {
            Error::InternalFailure
        } else if code == NOT_PRESENT {
            Error::NotPresent
        } else if code == DISABLED {
            Error::Disabled
        } else if code == INVALID_ADDRESS {
            Error::InvalidAddress
        } else {
            Error::Unknown(code)
        }
    }

    /// Whether this error is the one that decoding gives for its own code: every error is,
    /// but an `Unknown` that carries a code with a name.
    pub open spec fn is_canonical(self) -> bool {
        self matches Error::Unknown(value) ==> !Self::is_named_code(value as int)
    }
}

impl From<Error> for i64 {
    fn from(error: Error) -> (code: i64) {
        match error {
            Error::NotSupported => NOT_SUPPORTED.into(),
            Error::InvalidParameters => INVALID_PARAMETERS.into(),
            Error::Denied => DENIED.into(),
            Error::AlreadyOn => ALREADY_ON.into(),
            Error::OnPending => ON_PENDING.into(),
            Error::InternalFailure => INTERNAL_FAILURE.into(),
            Error::NotPresent => NOT_PRESENT.into(),
            Error::Disabled => DISABLED.into(),
            Error::InvalidAddress => INVALID_ADDRESS.into(),
            Error::Unknown(value) => value,
        }
    }
}

impl vstd::std_specs::convert::FromSpecImpl<Error> for i64 {
    open spec fn obeys_from_spec() -> bool {
        true
    }

    open spec fn from_spec(error: Error) -> i64 {
        error.code() as i64
    }
}

impl From<i32> for Error {
    fn from(value: i32) -> (error: Error) {
        match value {
            NOT_SUPPORTED => Error::NotSupported,
            INVALID_PARAMETERS => Error::InvalidParameters,
            DENIED => Error::Denied,
            ALREADY_ON => Error::AlreadyOn,
            ON_PENDING => Error::OnPending,
            INTERNAL_FAILURE => Error::InternalFailure,
            NOT_PRESENT => Error::NotPresent,
            DISABLED => Error::Disabled,
            INVALID_ADDRESS => Error::InvalidAddress,
            _ => Error::Unknown(value.into()),
        }
    }
}

impl vstd::std_specs::convert::FromSpecImpl<i32> for Error {
    open spec fn obeys_from_spec() -> bool {
        true
    }

    open spec fn from_spec(value: i32) -> Error {
        Error::of_code(value as i64)
    }
}

impl From<i64> for Error {
    fn from(value: i64) -> (error: Error) {
        if let Ok(value) = i32::try_from(value) {
            value.into()
        } else {
            Error::Unknown(value)
        }
    }
}

impl vstd::std_specs::convert::FromSpecImpl<i64> for Error {
    open spec fn obeys_from_spec() -> bool {
        true
    }

    open spec fn from_spec(value: i64) -> Error {
        Error::of_code(value)
    }
}

/// Encoding a named error and decoding the code gives the same error back. So it does for an
/// `Unknown` whose code has no name.
pub proof fn lemma_error_round_trip(error: Error)
    requires
        error.is_canonical(),
    ensures
        <Error as FromSpec<i64>>::from_spec(i64::from_spec(error)) == error,
{
}

/// Decoding a code and encoding the error gives the same code back, at the full width of the
/// code. A code without a name decodes to the `Unknown` that carries it.
pub proof fn lemma_code_round_trip(code: i64)
    ensures
        i64::from_spec(<Error as FromSpec<i64>>::from_spec(code)) == code,
        <Error as FromSpec<i64>>::from_spec(code).is_canonical(),
        !Error::is_named_code(code as int) ==> <Error as FromSpec<i64>>::from_spec(code)
            == Error::Unknown(code),
        Error::is_named_code(code as int) ==> !(<Error as FromSpec<i64>>::from_spec(
            code,
        ) is Unknown),
{
}

/// A 32-bit code decodes as the 64-bit code of the same value does: widening extends the sign.
pub proof fn lemma_narrow_code_widens(code: i32)
    ensures
        <Error as FromSpec<i32>>::from_spec(code) == <Error as FromSpec<i64>>::from_spec(
            code as i64,
        ),
        i64::from_spec(<Error as FromSpec<i32>>::from_spec(code)) == code,
{
}

} // verus!
