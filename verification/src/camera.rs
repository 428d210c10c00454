//! Fly-style free camera: held keys are integrated into yaw and pitch, and into
//! the direction and length of the step the camera takes.
//!
//! Angles are whole picoradians and elapsed time is whole nanoseconds; rates are
//! thousandths per second, so a rate times a duration is exact.

use crate::units::integrate;
use vstd::prelude::*;

verus! {

/// Largest magnitude the pitch may take, in picoradians: 1.54 rad, just short of
/// looking straight up or down.
pub const PITCH_LIMIT: i64 = 1_540_000_000_000;

/// The keys the camera listens to, as they are held during one tick.
#[derive(Clone, Copy, Debug, PartialEq, Eq, Structural)]
pub struct CameraKeys {
    pub forward: bool,
    pub back: bool,
    pub left: bool,
    pub right: bool,
    pub up: bool,
    pub down: bool,
    pub yaw_left: bool,
    pub yaw_right: bool,
    pub pitch_up: bool,
    pub pitch_down: bool,
}

/// Signed contribution of a pair of opposed keys: they cancel when both are held.
pub open spec fn axis(positive: bool, negative: bool) -> int {
    (if positive { 1int } else { 0int }) - (if negative { 1int } else { 0int })
}

/// What a pair of opposed keys adds when each one alone adds or takes `amount`.
pub open spec fn pushed_by(positive: bool, negative: bool, amount: int) -> int {
    if positive == negative {
        0
    } else if positive {
        amount
    } else {
        -amount
    }
}

/// `x` brought into the closed interval from `lo` to `hi`.
pub open spec fn clamp(x: int, lo: int, hi: int) -> int {
    if x < lo {
        lo
    } else if x > hi {
        hi
    } else {
        x
    }
}

/// Direction of travel, each component -1, 0 or 1: `forward` and `right` count
/// along the camera's own forward and right axes as they stand after the tick's
/// rotation, `up` counts along the world's up axis, whichever way the camera
/// looks.
#[derive(Clone, Copy, Debug, PartialEq, Eq, Structural)]
pub struct Movement {
    pub forward: i8,
    pub right: i8,
    pub up: i8,
}

impl Movement {
    /// No component asks for travel.
    pub open spec fn is_still(self) -> bool {
        self.forward == 0 && self.right == 0 && self.up == 0
    }

    /// Whether no component asks for travel.
    pub fn is_zero(&self) -> (still: bool)
        ensures
            still == self.is_still(),
    {
        self.forward == 0 && self.right == 0 && self.up == 0
    }
}

/// The direction that the held movement keys ask for: forward against back and
/// right against left along the camera's axes, up against down along the world's
/// up axis.
pub open spec fn movement_of(keys: CameraKeys) -> Movement {
    Movement {
        forward: axis(keys.forward, keys.back) as i8,
        right: axis(keys.right, keys.left) as i8,
        up: axis(keys.up, keys.down) as i8,
    }
}

/// What the camera does to its position in one tick: travel `distance` (in
/// units of 1e-12) along the normalised sum of the axes that `movement` picks.
#[derive(Clone, Copy, Debug, PartialEq, Eq, Structural)]
pub struct Step {
    pub movement: Movement,
    pub distance: u128,
}

/// Orientation and rates of a camera as mathematical integers.
pub struct CameraModel {
    pub yaw: int,
    pub pitch: int,
    pub turn_rate: nat,
    pub move_rate: nat,
}

impl CameraModel {
    /// The yaw is representable and the pitch is within its limit.
    pub open spec fn wf(self) -> bool {
        &&& i128::MIN <= self.yaw <= i128::MAX
        &&& -PITCH_LIMIT <= self.pitch <= PITCH_LIMIT
    }

    /// The camera after the rotation keys were held for `dt` nanoseconds. The yaw
    /// stops at the end of its representable range, the pitch at its limit.
    pub open spec fn rotated(self, keys: CameraKeys, dt: nat) -> CameraModel {
        let turn = self.turn_rate * dt;
        CameraModel {
            yaw: clamp(
                self.yaw + pushed_by(keys.yaw_left, keys.yaw_right, turn as int),
                i128::MIN as int,
                i128::MAX as int,
            ),
            pitch: clamp(
                self.pitch + pushed_by(keys.pitch_up, keys.pitch_down, turn as int),
                -PITCH_LIMIT as int,
                PITCH_LIMIT as int,
            ),
            turn_rate: self.turn_rate,
            move_rate: self.move_rate,
        }
    }

    /// The step taken when the movement keys were held for `dt` nanoseconds:
    /// nothing when the keys cancel or none is held.
    pub open spec fn step(self, keys: CameraKeys, dt: nat) -> Step {
        let movement = movement_of(keys);
        Step {
            movement,
            distance: if movement.is_still() {
                0u128
            } else {
                (self.move_rate * dt) as u128
            },
        }
    }

    /// The camera after a run of ticks, each a set of held keys and a duration.
    pub open spec fn rotated_through(self, ticks: Seq<(CameraKeys, nat)>) -> CameraModel
        decreases ticks.len(),
    {
        if ticks.len() == 0 {
            self
        } else {
            self.rotated_through(ticks.drop_last()).rotated(ticks.last().0, ticks.last().1)
        }
    }
}

/// A free camera's yaw and pitch, with the rates at which keys change them.
#[derive(Clone, Copy, Debug)]
pub struct FlyCamera {
    yaw: i128,
    pitch: i64,
    turn_rate: u32,
    move_rate: u32,
}

impl View for FlyCamera {
    type V = CameraModel;

    closed spec fn view(&self) -> CameraModel {
        CameraModel {
            yaw: self.yaw as int,
            pitch: self.pitch as int,
            turn_rate: self.turn_rate as nat,
            move_rate: self.move_rate as nat,
        }
    }
}

/// The contribution of a pair of opposed keys.
pub fn key_axis(positive: bool, negative: bool) -> (a: i8)
    ensures
        a == axis(positive, negative),
{
    let up: i8 = if positive { 1 } else { 0 };
    let down: i8 = if negative { 1 } else { 0 };
    up - down
}

/// The direction that the held movement keys ask for.
pub fn movement(keys: &CameraKeys) -> (m: Movement)
    ensures
        m == movement_of(*keys),
{
    Movement {
        forward: key_axis(keys.forward, keys.back),
        right: key_axis(keys.right, keys.left),
        up: key_axis(keys.up, keys.down),
    }
}

impl FlyCamera {
    #[verifier::type_invariant]
    spec fn pitch_within_limit(self) -> bool {
        -PITCH_LIMIT <= self.pitch <= PITCH_LIMIT
    }

    /// A level camera facing along its reference direction. `turn_rate` is in
    /// milliradians per second, `move_rate` in thousandths of a unit per second.
    pub fn new(turn_rate: u32, move_rate: u32) -> (camera: FlyCamera)
        ensures
            camera@ == (CameraModel {
                yaw: 0,
                pitch: 0,
                turn_rate: turn_rate as nat,
                move_rate: move_rate as nat,
            }),
            camera@.wf(),
    {
        FlyCamera { yaw: 0, pitch: 0, turn_rate, move_rate }
    }

    /// A camera turned to the given yaw and pitch, in picoradians. A pitch beyond
    /// the limit is brought back to it.
    pub fn facing(yaw: i128, pitch: i64, turn_rate: u32, move_rate: u32) -> (camera: FlyCamera)
        ensures
            camera@ == (CameraModel {
                yaw: yaw as int,
                pitch: clamp(pitch as int, -PITCH_LIMIT as int, PITCH_LIMIT as int),
                turn_rate: turn_rate as nat,
                move_rate: move_rate as nat,
            }),
            camera@.wf(),
    {
        let pitch: i64 = if pitch > PITCH_LIMIT {
            PITCH_LIMIT
        } else if pitch < -PITCH_LIMIT {
            -PITCH_LIMIT
        } else {
            pitch
        };
        FlyCamera { yaw, pitch, turn_rate, move_rate }
    }

    /// Rotation about the world's up axis, in picoradians.
    pub fn yaw(&self) -> (yaw: i128)
        ensures
            yaw == self@.yaw,
    {
        self.yaw
    }

    /// Rotation about the camera's own right axis, in picoradians.
    pub fn pitch(&self) -> (pitch: i64)
        ensures
            pitch == self@.pitch,
            -PITCH_LIMIT <= pitch <= PITCH_LIMIT,
    {
        proof {
            use_type_invariant(self);
        }
        self.pitch
    }

    /// Rotation rate in milliradians per second.
    pub fn turn_rate(&self) -> (rate: u32)
        ensures
            rate == self@.turn_rate,
    {
        self.turn_rate
    }

    /// Travel rate in thousandths of a unit per second.
    pub fn move_rate(&self) -> (rate: u32)
        ensures
            rate == self@.move_rate,
    {
        self.move_rate
    }

    /// Turns the camera by the rotation keys held for `dt` nanoseconds.
    pub fn rotate(&mut self, keys: &CameraKeys, dt: u64)
        ensures
            final(self)@ == old(self)@.rotated(*keys, dt as nat),
            final(self)@.wf(),
            dt == 0 ==> final(self)@ == old(self)@,
    {
        proof {
            use_type_invariant(&*self);
        }
        let turn: i128 = integrate(self.turn_rate, dt) as i128;
        let yaw_axis: i8 = key_axis(keys.yaw_left, keys.yaw_right);
        let pitch_axis: i8 = key_axis(keys.pitch_up, keys.pitch_down);
        if yaw_axis > 0 {
            self.yaw = if self.yaw > i128::MAX - turn {
                i128::MAX
            } else {
                self.yaw + turn
            };
        } else if yaw_axis < 0 {
            self.yaw = if self.yaw < i128::MIN + turn {
                i128::MIN
            } else {
                self.yaw - turn
            };
        }
        let raised: i128 = if pitch_axis > 0 {
            self.pitch as i128 + turn
        } else if pitch_axis < 0 {
            self.pitch as i128 - turn
        } else {
            self.pitch as i128
        };
        self.pitch = if raised > PITCH_LIMIT as i128 {
            PITCH_LIMIT
        } else if raised < -(PITCH_LIMIT as i128) {
            -PITCH_LIMIT
        } else {
            raised as i64
        };
    }

    /// One tick of the controller: turns the camera by the rotation keys and
    /// returns the step that the movement keys ask for.
    pub fn tick(&mut self, keys: &CameraKeys, dt: u64) -> (step: Step)
        ensures
            final(self)@ == old(self)@.rotated(*keys, dt as nat),
            final(self)@.wf(),
            step == old(self)@.step(*keys, dt as nat),
            dt == 0 ==> final(self)@ == old(self)@ && step.distance == 0,
    {
        self.rotate(keys, dt);
        let movement: Movement = movement(keys);
        let distance: u128 = if movement.is_zero() {
            0
        } else {
            integrate(self.move_rate, dt)
        };
        Step { movement, distance }
    }
}

/// Whatever keys are held and for however long, over any run of ticks, the pitch
/// of a camera stays within its limit and its yaw stays representable.
pub proof fn lemma_pitch_stays_within_limit(camera: CameraModel, ticks: Seq<(CameraKeys, nat)>)
    requires
        camera.wf(),
    ensures
        camera.rotated_through(ticks).wf(),
        -PITCH_LIMIT <= camera.rotated_through(ticks).pitch <= PITCH_LIMIT,
    decreases ticks.len(),
{
    if ticks.len() > 0 {
        lemma_pitch_stays_within_limit(camera, ticks.drop_last());
    }
}

/// A tick in which no time passes leaves the camera as it was and takes no step,
/// whatever keys are held.
pub proof fn lemma_null_tick_keeps_camera(camera: CameraModel, keys: CameraKeys)
    requires
        camera.wf(),
    ensures
        camera.rotated(keys, 0) == camera,
        camera.step(keys, 0).distance == 0,
{
    assert(camera.turn_rate * 0 == 0 && camera.move_rate * 0 == 0) by (nonlinear_arith);
}

/// With no rotation key held, or with opposed keys held together, the camera's
/// orientation does not change, however much time passes.
pub proof fn lemma_cancelled_keys_keep_orientation(camera: CameraModel, keys: CameraKeys, dt: nat)
    requires
        camera.wf(),
        keys.yaw_left == keys.yaw_right,
        keys.pitch_up == keys.pitch_down,
    ensures
        camera.rotated(keys, dt) == camera,
{
}

} // verus!
