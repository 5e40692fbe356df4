//! Error kinds of the adapter.

use vstd::prelude::*;

verus! {

/// A command parameter that failed validation; raised before anything is
/// sent.
#[derive(Debug, Clone, Copy, PartialEq, Eq, Structural)]
pub enum ValidationError {
    /// A number outside the inclusive range `min..=max`.
    OutOfRange { min: u16, max: u16 },
    /// A token that names no air-conditioner mode.
    UnknownMode,
    /// A token that names no fan speed.
    UnknownFanSpeed,
    /// A token that names no power state.
    UnknownPowerState,
    /// A command that needs a value was given none.
    MissingValue,
    /// A value that is not an unsigned decimal number of the expected width.
    NotANumber,
    /// A command was given the wrong number of values.
    WrongValueCount { expected: usize, found: usize },
}

/// Why a request could not be signed.
#[derive(Debug, Clone, Copy, PartialEq, Eq, Structural)]
pub enum SigningError {
    /// The system clock is set before the Unix epoch.
    ClockUnavailable,
}

/// Failure of a call through the adapter.
#[derive(Debug, Clone, PartialEq, Eq)]
pub enum ApiError {
    Validation(ValidationError),
    Signing(SigningError),
    /// The request failed in transport: with the HTTP status where the
    /// server answered with a non-success status, without one where no
    /// answer came.
    Transport { status: Option<u16> },
    /// The response body did not have the expected shape.
    Deserialization { context: String },
    /// No listed device has the requested identifier.
    DeviceNotFound,
}

} // verus!
