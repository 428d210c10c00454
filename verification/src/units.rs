//! The units that the rest of the crate counts in.
//!
//! Durations are whole nanoseconds and rates are thousandths per second, so a
//! rate held for a duration comes to a whole number of 1e-12 units: picoradians
//! where the rate is in milliradians per second.

use vstd::prelude::*;

verus! {

/// Nanoseconds in one second.
pub const NANOS_PER_SECOND: u64 = 1_000_000_000;

/// How many of the units that `integrate` returns make one whole unit: one
/// radian in picoradians.
pub const PICOS_PER_UNIT: u64 = 1_000_000_000_000;

/// What a rate in thousandths per second comes to when held for `dt`
/// nanoseconds, in units of 1e-12. The product of a `u32` and a `u64` always
/// fits, and stays below 2^96.
pub fn integrate(rate: u32, dt: u64) -> (amount: u128)
    ensures
        amount == rate * dt,
        amount < 0x1_0000_0000_0000_0000_0000_0000,
{
    assert(rate * dt <= 0xffff_ffff * 0xffff_ffff_ffff_ffff) by (nonlinear_arith)
        requires
            0 <= rate <= 0xffff_ffff,
            0 <= dt <= 0xffff_ffff_ffff_ffff,
    ;
    (rate as u128) * (dt as u128)
}

} // verus!
