//! The deterministic core of a small orbit visualisation: a body circling a
//! centre on a slowly tilting plane, the trace it leaves behind, a free camera
//! steered by the keyboard, a switchable grid overlay and a split-screen layout.
//!
//! Everything here is integer arithmetic, so each tick is exact and repeatable.
//! Durations are whole nanoseconds. Rates are thousandths per second
//! (milliradians per second for angles), which makes a rate times a duration a
//! whole number of 1e-12 units (picoradians for angles). Lengths that are not the
//! result of such a product are thousandths of a world unit. Turning angles into
//! directions and positions takes sines and cosines and is the caller's part.

pub mod camera;
pub mod grid;
pub mod orbit;
pub mod trace;
pub mod units;
pub mod viewport;
