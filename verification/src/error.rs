//! Result codes of the native library and the error kinds they stand for.

use vstd::prelude::*;

verus! {

/// A result code as the native library names it.
///
/// The native library reports a small signed integer; [`simon_error_t::from_code`]
/// reads one and [`simon_error_t::code`] gives it back.
#[allow(non_camel_case_types)]
#[derive(Debug, Clone, Copy, PartialEq, Eq, Structural)]
pub enum simon_error_t {
    SIMON_SUCCESS,
    SIMON_ERROR_NULL_HANDLE,
    SIMON_ERROR_CONNECTION_FAILED,
    SIMON_ERROR_PORT_UNAVAILABLE,
    SIMON_ERROR_INVALID_PARAMETER,
    SIMON_ERROR_HOOK_FAILED,
    SIMON_ERROR_TIMEOUT,
    SIMON_ERROR_UNKNOWN,
}

impl simon_error_t {
    /// The integer that the native library uses for this code.
    pub open spec fn spec_code(self) -> int {
        match self {
            simon_error_t::SIMON_SUCCESS => 0,
            simon_error_t::SIMON_ERROR_NULL_HANDLE => -1,
            simon_error_t::SIMON_ERROR_CONNECTION_FAILED => -2,
            simon_error_t::SIMON_ERROR_PORT_UNAVAILABLE => -3,
            simon_error_t::SIMON_ERROR_INVALID_PARAMETER => -4,
            simon_error_t::SIMON_ERROR_HOOK_FAILED => -5,
            simon_error_t::SIMON_ERROR_TIMEOUT => -6,
            simon_error_t::SIMON_ERROR_UNKNOWN => -99,
        }
    }

    /// The code that an integer stands for. Every integer outside the table,
    /// positive or negative, reads as `SIMON_ERROR_UNKNOWN`.
    pub open spec fn spec_from_code(code: int) -> simon_error_t {
        if code == 0 {
            simon_error_t::SIMON_SUCCESS
        } else if code == -1 {
            simon_error_t::SIMON_ERROR_NULL_HANDLE
        } else if code == -2 {
            simon_error_t::SIMON_ERROR_CONNECTION_FAILED
        } else if code == -3 {
            simon_error_t::SIMON_ERROR_PORT_UNAVAILABLE
        } else if code == -4 {
            simon_error_t::SIMON_ERROR_INVALID_PARAMETER
        } else if code == -5 {
            simon_error_t::SIMON_ERROR_HOOK_FAILED
        } else if code == -6 {
            simon_error_t::SIMON_ERROR_TIMEOUT
        } else {
            simon_error_t::SIMON_ERROR_UNKNOWN
        }
    }

    pub fn code(self) -> (c: i32)
        ensures
            c == self.spec_code(),
    {
        match self {
            simon_error_t::SIMON_SUCCESS => 0,
            simon_error_t::SIMON_ERROR_NULL_HANDLE => -1,
            simon_error_t::SIMON_ERROR_CONNECTION_FAILED => -2,
            simon_error_t::SIMON_ERROR_PORT_UNAVAILABLE => -3,
            simon_error_t::SIMON_ERROR_INVALID_PARAMETER => -4,
            simon_error_t::SIMON_ERROR_HOOK_FAILED => -5,
            simon_error_t::SIMON_ERROR_TIMEOUT => -6,
            simon_error_t::SIMON_ERROR_UNKNOWN => -99,
        }
    }

    pub fn from_code(code: i32) -> (e: simon_error_t)
        ensures
            e == simon_error_t::spec_from_code(code as int),
        opens_invariants none
        no_unwind
    {
        match code {
            0 => simon_error_t::SIMON_SUCCESS,
            -1 => simon_error_t::SIMON_ERROR_NULL_HANDLE,
            -2 => simon_error_t::SIMON_ERROR_CONNECTION_FAILED,
            -3 => simon_error_t::SIMON_ERROR_PORT_UNAVAILABLE,
            -4 => simon_error_t::SIMON_ERROR_INVALID_PARAMETER,
            -5 => simon_error_t::SIMON_ERROR_HOOK_FAILED,
            -6 => simon_error_t::SIMON_ERROR_TIMEOUT,
            _ => simon_error_t::SIMON_ERROR_UNKNOWN,
        }
    }
}

/// What can go wrong in a call on a native resource.
#[derive(Debug, Clone, Copy, PartialEq, Eq, Structural)]
pub enum SimonError {
    NullHandle,
    ConnectionFailed,
    PortUnavailable,
    InvalidParameter,
    HookFailed,
    Timeout,
    Unknown,
}

impl SimonError {
    /// The sentence that describes the error to a reader.
    pub open spec fn spec_message(self) -> Seq<char> {
        match self {
            SimonError::NullHandle => "Null handle provided"@,
            SimonError::ConnectionFailed => "Connection to serial device failed"@,
            SimonError::PortUnavailable => "Serial port is unavailable"@,
            SimonError::InvalidParameter => "Invalid parameter provided"@,
            SimonError::HookFailed => "Failed to set up keyboard hook"@,
            SimonError::Timeout => "Operation timed out"@,
            SimonError::Unknown => "Unknown error occurred"@,
        }
    }

    /// The variant's name, as it is written in the source.
    pub open spec fn spec_name(self) -> Seq<char> {
        match self {
            SimonError::NullHandle => "NullHandle"@,
            SimonError::ConnectionFailed => "ConnectionFailed"@,
            SimonError::PortUnavailable => "PortUnavailable"@,
            SimonError::InvalidParameter => "InvalidParameter"@,
            SimonError::HookFailed => "HookFailed"@,
            SimonError::Timeout => "Timeout"@,
            SimonError::Unknown => "Unknown"@,
        }
    }

    /// The error that a native code stands for. A code that names no failure of
    /// its own, `SIMON_SUCCESS` included, is `Unknown`.
    pub open spec fn spec_from(err: simon_error_t) -> SimonError {
        match err {
            simon_error_t::SIMON_ERROR_NULL_HANDLE => SimonError::NullHandle,
            simon_error_t::SIMON_ERROR_CONNECTION_FAILED => SimonError::ConnectionFailed,
            simon_error_t::SIMON_ERROR_PORT_UNAVAILABLE => SimonError::PortUnavailable,
            simon_error_t::SIMON_ERROR_INVALID_PARAMETER => SimonError::InvalidParameter,
            simon_error_t::SIMON_ERROR_HOOK_FAILED => SimonError::HookFailed,
            simon_error_t::SIMON_ERROR_TIMEOUT => SimonError::Timeout,
            _ => SimonError::Unknown,
        }
    }

    /// The error that a native code stands for.
    pub fn from_native(err: simon_error_t) -> (e: SimonError)
        ensures
            e == SimonError::spec_from(err),
        opens_invariants none
        no_unwind
    {
        match err {
            simon_error_t::SIMON_ERROR_NULL_HANDLE => SimonError::NullHandle,
            simon_error_t::SIMON_ERROR_CONNECTION_FAILED => SimonError::ConnectionFailed,
            simon_error_t::SIMON_ERROR_PORT_UNAVAILABLE => SimonError::PortUnavailable,
            simon_error_t::SIMON_ERROR_INVALID_PARAMETER => SimonError::InvalidParameter,
            simon_error_t::SIMON_ERROR_HOOK_FAILED => SimonError::HookFailed,
            simon_error_t::SIMON_ERROR_TIMEOUT => SimonError::Timeout,
            _ => SimonError::Unknown,
        }
    }

    pub fn message(&self) -> (text: String)
        ensures
            text@ == self.spec_message(),
    {
        match self {
            SimonError::NullHandle => String::from_str("Null handle provided"),
            SimonError::ConnectionFailed => String::from_str("Connection to serial device failed"),
            SimonError::PortUnavailable => String::from_str("Serial port is unavailable"),
            SimonError::InvalidParameter => String::from_str("Invalid parameter provided"),
            SimonError::HookFailed => String::from_str("Failed to set up keyboard hook"),
            SimonError::Timeout => String::from_str("Operation timed out"),
            SimonError::Unknown => String::from_str("Unknown error occurred"),
        }
    }

    pub fn name(&self) -> (text: &'static str)
        ensures
            text@ == self.spec_name(),
    {
        match self {
            SimonError::NullHandle => "NullHandle",
            SimonError::ConnectionFailed => "ConnectionFailed",
            SimonError::PortUnavailable => "PortUnavailable",
            SimonError::InvalidParameter => "InvalidParameter",
            SimonError::HookFailed => "HookFailed",
            SimonError::Timeout => "Timeout",
            SimonError::Unknown => "Unknown",
        }
    }
}

impl From<simon_error_t> for SimonError {
    fn from(err: simon_error_t) -> (e: SimonError) {
        SimonError::from_native(err)
    }
}

impl vstd::std_specs::convert::FromSpecImpl<simon_error_t> for SimonError {
    open spec fn obeys_from_spec() -> bool {
        true
    }

    open spec fn from_spec(err: simon_error_t) -> SimonError {
        SimonError::spec_from(err)
    }
}

/// What a native status code means to the caller of an operation: `0` is
/// success, every other integer the failure that it stands for.
pub open spec fn status_result(code: int) -> Result<(), SimonError> {
    if code == 0 {
        Ok(())
    } else {
        Err(SimonError::spec_from(simon_error_t::spec_from_code(code)))
    }
}

/// Turns the status code that a native call returned into the operation's result.
pub fn decode_status(code: i32) -> (r: Result<(), SimonError>)
    ensures
        r == status_result(code as int),
    opens_invariants none
    no_unwind
{
    match simon_error_t::from_code(code) {
        simon_error_t::SIMON_SUCCESS => Ok(()),
        err => Err(SimonError::from_native(err)),
    }
}

/// Reading a code's integer gives the code back.
pub proof fn code_round_trip(err: simon_error_t)
    ensures
        simon_error_t::spec_from_code(err.spec_code()) == err,
{
}

/// Decoding never fails and never invents success: the result is `Ok` for
/// `0` alone, and an integer outside the table is `Unknown`.
pub proof fn status_result_is_total(code: int)
    ensures
        status_result(code) is Ok <==> code == 0,
        !(-6 <= code <= 0) ==> status_result(code) == Err::<(), SimonError>(SimonError::Unknown),
{
}

} // verus!
