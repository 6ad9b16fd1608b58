//! The ways an operation of this library can fail.
use vstd::prelude::*;

verus! {

/// Why a clock operation or a conversion did not produce a value.
#[derive(Debug, Clone, Copy, PartialEq, Eq, Structural)]
pub enum RtcError {
    /// A month, day, hour, minute or second (or a year outside
    /// `1..=9999`) that names no point of the calendar.
    InvalidDateTime,
    /// A valid date and time whose nanosecond count since the Unix epoch
    /// does not fit in an unsigned 64-bit timestamp.
    TimestampOutOfRange,
    /// The backend does not implement the operation.
    Unsupported,
}

} // verus!
