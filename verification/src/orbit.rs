//! The orbiting body's angular position and the phase of its plane's tilt.
//!
//! Time is whole nanoseconds and rates are milliradians per second, so the angle
//! and the phase are whole picoradians and every step is exact. The position on
//! the tilted circle is a matter of sine and cosine and is left to the caller.

use crate::units::integrate;
use vstd::prelude::*;

verus! {

/// The largest angle that can be held; the angle stops growing there.
pub const ANGLE_MAX: u128 = u128::MAX;

/// Sum of a run of durations.
pub open spec fn total(dts: Seq<nat>) -> nat
    decreases dts.len(),
{
    if dts.len() == 0 {
        0
    } else {
        total(dts.drop_last()) + dts.last()
    }
}

/// An angle as far as it can be held: itself, or the largest angle if it is beyond.
pub open spec fn held(angle: nat) -> nat {
    if angle <= ANGLE_MAX {
        angle
    } else {
        ANGLE_MAX as nat
    }
}

/// An orbit as mathematical integers: angle and tilt phase in picoradians, the
/// two rates in milliradians per second.
pub struct OrbitModel {
    pub angle: nat,
    pub tilt_phase: nat,
    pub speed: nat,
    pub tilt_rate: nat,
}

impl OrbitModel {
    /// The angle can be held.
    pub open spec fn wf(self) -> bool {
        self.angle <= ANGLE_MAX
    }

    /// The orbit after `dt` nanoseconds: the angle grows by `speed * dt`, up to
    /// the largest angle that can be held.
    pub open spec fn advanced(self, dt: nat) -> OrbitModel {
        OrbitModel {
            angle: held(self.angle + self.speed * dt),
            tilt_phase: self.tilt_phase,
            speed: self.speed,
            tilt_rate: self.tilt_rate,
        }
    }

    /// The orbit after a run of ticks of the given durations.
    pub open spec fn advanced_through(self, dts: Seq<nat>) -> OrbitModel
        decreases dts.len(),
    {
        if dts.len() == 0 {
            self
        } else {
            self.advanced_through(dts.drop_last()).advanced(dts.last())
        }
    }

    /// The orbit with its tilt phase set for `elapsed` nanoseconds since the
    /// start: the argument of the sine that gives the tilt.
    pub open spec fn oscillated(self, elapsed: nat) -> OrbitModel {
        OrbitModel {
            angle: self.angle,
            tilt_phase: self.tilt_rate * elapsed,
            speed: self.speed,
            tilt_rate: self.tilt_rate,
        }
    }
}

/// Angular position of the orbiting body and phase of the tilt of its plane.
#[derive(Clone, Copy, Debug)]
pub struct OrbitState {
    angle: u128,
    tilt_phase: u128,
    speed: u32,
    tilt_rate: u32,
}

impl View for OrbitState {
    type V = OrbitModel;

    closed spec fn view(&self) -> OrbitModel {
        OrbitModel {
            angle: self.angle as nat,
            tilt_phase: self.tilt_phase as nat,
            speed: self.speed as nat,
            tilt_rate: self.tilt_rate as nat,
        }
    }
}

impl OrbitState {
    /// An orbit at angle zero with a level plane. `speed` turns the body and
    /// `tilt_rate` drives the tilt, both in milliradians per second.
    pub fn new(speed: u32, tilt_rate: u32) -> (orbit: OrbitState)
        ensures
            orbit@ == (OrbitModel {
                angle: 0,
                tilt_phase: 0,
                speed: speed as nat,
                tilt_rate: tilt_rate as nat,
            }),
    {
        OrbitState { angle: 0, tilt_phase: 0, speed, tilt_rate }
    }

    /// An orbit whose body is already at the given angle, in picoradians.
    pub fn starting_at(angle: u128, speed: u32, tilt_rate: u32) -> (orbit: OrbitState)
        ensures
            orbit@ == (OrbitModel {
                angle: angle as nat,
                tilt_phase: 0,
                speed: speed as nat,
                tilt_rate: tilt_rate as nat,
            }),
    {
        OrbitState { angle, tilt_phase: 0, speed, tilt_rate }
    }

    /// Angular position in picoradians.
    pub fn angle(&self) -> (angle: u128)
        ensures
            angle == self@.angle,
    {
        self.angle
    }

    /// Argument of the tilt's sine, in picoradians.
    pub fn tilt_phase(&self) -> (phase: u128)
        ensures
            phase == self@.tilt_phase,
    {
        self.tilt_phase
    }

    /// Angular speed of the body in milliradians per second.
    pub fn speed(&self) -> (speed: u32)
        ensures
            speed == self@.speed,
    {
        self.speed
    }

    /// Rate of the tilt's oscillation in milliradians per second.
    pub fn tilt_rate(&self) -> (rate: u32)
        ensures
            rate == self@.tilt_rate,
    {
        self.tilt_rate
    }

    /// Moves the body along its orbit for `dt` nanoseconds.
    pub fn advance(&mut self, dt: u64)
        ensures
            final(self)@ == old(self)@.advanced(dt as nat),
            final(self)@.angle >= old(self)@.angle,
            dt == 0 ==> final(self)@ == old(self)@,
    {
        let grown: u128 = integrate(self.speed, dt);
        self.angle = if self.angle > ANGLE_MAX - grown {
            ANGLE_MAX
        } else {
            self.angle + grown
        };
    }

    /// Sets the tilt phase for `elapsed` nanoseconds since the start.
    pub fn oscillate(&mut self, elapsed: u64)
        ensures
            final(self)@ == old(self)@.oscillated(elapsed as nat),
    {
        self.tilt_phase = integrate(self.tilt_rate, elapsed);
    }
}

/// The sum of a run followed by another is the sum of the two sums.
pub proof fn lemma_total_of_joined(first: Seq<nat>, second: Seq<nat>)
    ensures
        total(first + second) == total(first) + total(second),
    decreases second.len(),
{
    if second.len() == 0 {
        assert(first + second =~= first);
    } else {
        lemma_total_of_joined(first, second.drop_last());
        assert((first + second).drop_last() =~= first + second.drop_last());
    }
}

/// Running through two runs of ticks one after the other is running through
/// their concatenation.
pub proof fn lemma_advanced_through_joined(orbit: OrbitModel, first: Seq<nat>, second: Seq<nat>)
    ensures
        orbit.advanced_through(first + second) == orbit.advanced_through(
            first,
        ).advanced_through(second),
    decreases second.len(),
{
    if second.len() == 0 {
        assert(first + second =~= first);
    } else {
        lemma_advanced_through_joined(orbit, first, second.drop_last());
        assert((first + second).drop_last() =~= first + second.drop_last());
    }
}

/// After any run of ticks the angle is what it was plus the speed times the
/// time that passed, or the largest angle that can be held if that is less.
pub proof fn lemma_angle_after_run(orbit: OrbitModel, dts: Seq<nat>)
    requires
        orbit.wf(),
    ensures
        orbit.advanced_through(dts).angle == held(orbit.angle + orbit.speed * total(dts)),
        orbit.advanced_through(dts).speed == orbit.speed,
        orbit.advanced_through(dts).tilt_rate == orbit.tilt_rate,
        orbit.advanced_through(dts).tilt_phase == orbit.tilt_phase,
    decreases dts.len(),
{
    if dts.len() == 0 {
        assert(orbit.speed * 0 == 0) by (nonlinear_arith);
    } else {
        let before = dts.drop_last();
        let dt = dts.last();
        lemma_angle_after_run(orbit, before);
        assert(orbit.speed * (total(before) + dt) == orbit.speed * total(before) + orbit.speed
            * dt) by (nonlinear_arith);
        assert(orbit.speed * dt >= 0) by (nonlinear_arith);
    }
}

/// For every run of ticks whose sum the angle can hold, the angle equals its
/// starting value plus the sum of `speed * dt` over the ticks.
pub proof fn lemma_angle_is_sum_of_advances(orbit: OrbitModel, dts: Seq<nat>)
    requires
        orbit.angle + orbit.speed * total(dts) <= ANGLE_MAX,
    ensures
        orbit.advanced_through(dts).angle == orbit.angle + orbit.speed * total(dts),
{
    assert(orbit.speed * total(dts) >= 0) by (nonlinear_arith);
    lemma_angle_after_run(orbit, dts);
}

/// The angle never decreases: after any further ticks it is at least what it was
/// after the ticks before them.
pub proof fn lemma_angle_never_decreases(orbit: OrbitModel, dts: Seq<nat>, more: Seq<nat>)
    requires
        orbit.wf(),
    ensures
        orbit.advanced_through(dts).angle <= orbit.advanced_through(dts + more).angle,
{
    lemma_advanced_through_joined(orbit, dts, more);
    lemma_total_of_joined(dts, more);
    lemma_angle_after_run(orbit, dts);
    lemma_angle_after_run(orbit, dts + more);
    assert(orbit.speed * (total(dts) + total(more)) == orbit.speed * total(dts) + orbit.speed
        * total(more)) by (nonlinear_arith);
    assert(orbit.speed * total(more) >= 0) by (nonlinear_arith);
    assert(orbit.speed * total(dts) >= 0) by (nonlinear_arith);
}

/// A tick in which no time passes leaves the orbit as it was, and setting the
/// tilt phase again for the same elapsed time changes nothing.
pub proof fn lemma_null_tick_keeps_orbit(orbit: OrbitModel, elapsed: nat)
    requires
        orbit.wf(),
    ensures
        orbit.advanced(0) == orbit,
        orbit.oscillated(elapsed).oscillated(elapsed) == orbit.oscillated(elapsed),
{
    assert(orbit.speed * 0 == 0) by (nonlinear_arith);
}

} // verus!
