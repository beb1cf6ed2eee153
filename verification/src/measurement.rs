//! Durations on their way to the filter: from signed nanoseconds to
//! microseconds that a 64-bit float holds exactly.

use crate::timestamp::NtpError;
use vstd::prelude::*;

verus! {

/// The largest count of microseconds that is handed to the filter: two to
/// the power 53, up to which a 64-bit float holds every integer.
pub const MAX_EXACT_MICROS: u64 = 9_007_199_254_740_992;

/// The whole microseconds in `nanos` nanoseconds, rounded towards zero.
pub open spec fn micros_of_nanos(nanos: int) -> int {
    if nanos >= 0 {
        nanos / 1000
    } else {
        -((-nanos) / 1000)
    }
}

/// The whole milliseconds in `nanos` nanoseconds, rounded towards zero.
pub open spec fn millis_of_nanos(nanos: int) -> int {
    if nanos >= 0 {
        nanos / 1_000_000
    } else {
        -((-nanos) / 1_000_000)
    }
}

/// The absolute value of `v`.
pub open spec fn magnitude(v: int) -> int {
    if v >= 0 {
        v
    } else {
        -v
    }
}

/// A count of microseconds as a sign and two 32-bit halves of its absolute
/// value, each of which a 64-bit float holds exactly.
#[derive(Clone, Copy, Debug, PartialEq, Eq, Structural)]
pub struct MicrosParts {
    pub negative: bool,
    pub high: u32,
    pub low: u32,
}

impl MicrosParts {
    /// The count of microseconds that the parts stand for.
    pub open spec fn value(self) -> int {
        let abs = self.high as int * 0x1_0000_0000 + self.low as int;
        if self.negative {
            -abs
        } else {
            abs
        }
    }

    /// The parts of `micros`: the sign, and the absolute value divided by
    /// two to the power 32 with its remainder.
    pub open spec fn of(micros: int) -> MicrosParts {
        MicrosParts {
            negative: micros < 0,
            high: (magnitude(micros) / 0x1_0000_0000) as u32,
            low: (magnitude(micros) % 0x1_0000_0000) as u32,
        }
    }
}

/// What one successful sample hands to the filter and to the display.
#[derive(Clone, Copy, Debug, PartialEq, Eq, Structural)]
pub struct Measurement {
    /// The measured offset in microseconds.
    pub offset: MicrosParts,
    /// The measured delay in microseconds, which is not negative.
    pub delay: MicrosParts,
    /// The measured delay in whole milliseconds, for the result line.
    pub delay_millis: i64,
}

/// The measurement that a sample with offset and delay in nanoseconds gives,
/// or `ArithmeticOverflow` where one of them exceeds `MAX_EXACT_MICROS`
/// microseconds in absolute value, or else `NegativeDelay` where the delay
/// is negative.
pub open spec fn measurement_of(offset_nanos: int, delay_nanos: int) -> Result<
    Measurement,
    NtpError,
> {
    if magnitude(micros_of_nanos(offset_nanos)) > MAX_EXACT_MICROS || magnitude(
        micros_of_nanos(delay_nanos),
    ) > MAX_EXACT_MICROS {
        Err(NtpError::ArithmeticOverflow)
    } else if delay_nanos < 0 {
        Err(NtpError::NegativeDelay)
    } else {
        Ok(
            Measurement {
                offset: MicrosParts::of(micros_of_nanos(offset_nanos)),
                delay: MicrosParts::of(micros_of_nanos(delay_nanos)),
                delay_millis: millis_of_nanos(delay_nanos) as i64,
            },
        )
    }
}

/// The whole microseconds in `nanos` nanoseconds, rounded towards zero.
pub fn nanos_to_micros(nanos: i64) -> (micros: i64)
    ensures
        micros == micros_of_nanos(nanos as int),
{
    nanos / 1000
}

/// The whole milliseconds in `nanos` nanoseconds, rounded towards zero.
pub fn nanos_to_millis(nanos: i64) -> (millis: i64)
    ensures
        millis == millis_of_nanos(nanos as int),
{
    nanos / 1_000_000
}

/// Splits a count of microseconds into parts that a 64-bit float holds
/// exactly.
///
/// Fails with `ArithmeticOverflow` exactly when the absolute value exceeds
/// `MAX_EXACT_MICROS`.
pub fn split_micros(micros: i64) -> (r: Result<MicrosParts, NtpError>)
    ensures
        magnitude(micros as int) <= MAX_EXACT_MICROS ==> r == Ok::<MicrosParts, NtpError>(
            MicrosParts::of(micros as int),
        ),
        magnitude(micros as int) > MAX_EXACT_MICROS ==> r == Err::<MicrosParts, NtpError>(
            NtpError::ArithmeticOverflow,
        ),
{
    let wide: i128 = micros as i128;
    let abs: i128 = if wide < 0 {
        -wide
    } else {
        wide
    };
    if abs > MAX_EXACT_MICROS as i128 {
        return Err(NtpError::ArithmeticOverflow);
    }
    let abs: u64 = abs as u64;
    let high: u64 = abs / 0x1_0000_0000;
    let low: u64 = abs % 0x1_0000_0000;
    Ok(MicrosParts { negative: micros < 0, high: high as u32, low: low as u32 })
}

/// Prepares one successful sample, with offset and delay in nanoseconds, for
/// the filter. The delay of a measurement that is returned is never
/// negative.
pub fn measure(offset_nanos: i64, delay_nanos: i64) -> (r: Result<Measurement, NtpError>)
    ensures
        r == measurement_of(offset_nanos as int, delay_nanos as int),
        r is Ok ==> !r->Ok_0.delay.negative && r->Ok_0.delay.value() >= 0 && r->Ok_0.delay_millis
            >= 0,
{
    let offset = match split_micros(nanos_to_micros(offset_nanos)) {
        Ok(parts) => parts,
        Err(e) => {
            return Err(e);
        },
    };
    let delay = match split_micros(nanos_to_micros(delay_nanos)) {
        Ok(parts) => parts,
        Err(e) => {
            return Err(e);
        },
    };
    if delay_nanos < 0 {
        return Err(NtpError::NegativeDelay);
    }
    Ok(Measurement { offset, delay, delay_millis: nanos_to_millis(delay_nanos) })
}

/// The parts of a count of microseconds within the exact range stand for
/// that count.
pub proof fn lemma_parts_value(micros: int)
    requires
        magnitude(micros) <= MAX_EXACT_MICROS,
    ensures
        MicrosParts::of(micros).value() == micros,
{
}

} // verus!
