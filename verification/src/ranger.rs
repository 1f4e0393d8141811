//! Distance derivation for the sonar ranger.
//!
//! The hardware protocol — drive the trigger low, wait, pulse it high, then
//! time how long the echo line stays high — lives with the task that owns the
//! pins; this module fixes the protocol's constants and turns the timed pulse
//! into a distance.

use vstd::prelude::*;

verus! {

/// Microseconds the trigger line is held low before the pulse.
pub const TRIGGER_SETTLE_MICROS: u64 = 5;

/// Microseconds the trigger line is held high to start a measurement.
pub const TRIGGER_PULSE_MICROS: u64 = 10;

/// Seconds between one measurement and the next.
pub const SAMPLE_INTERVAL_SECS: u64 = 1;

/// Distance in centimeters from the microseconds the echo line stayed high:
/// half the elapsed time, at about 29 microseconds of sound travel per
/// centimeter.
pub fn distance_cm(elapsed_us: u64) -> (r: u64)
    ensures
        r == elapsed_us as int / 2 / 29,
{
    elapsed_us / 2 / 29
}

} // verus!
