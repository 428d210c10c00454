//! Debug overlay: a switchable square grid on the ground plane and the three
//! coordinate axes, as coloured line segments.
//!
//! Coordinates are whole thousandths of a world unit.

use vstd::arithmetic::div_mod::{lemma_div_pos_is_pos, lemma_fundamental_div_mod, lemma_mod_bound};
use vstd::prelude::*;

verus! {

/// Thousandths in one world unit.
pub const UNIT: i64 = 1000;

/// How far each axis line reaches from the origin, in thousandths.
pub const AXIS_REACH: i64 = 100_000;

/// A position in thousandths of a world unit.
#[derive(Clone, Copy, Debug, PartialEq, Eq, Structural)]
pub struct Point {
    pub x: i64,
    pub y: i64,
    pub z: i64,
}

/// The colours the overlay draws in.
#[derive(Clone, Copy, Debug, PartialEq, Eq, Structural)]
pub enum LineColor {
    Grey,
    Red,
    Green,
    Blue,
}

/// A straight line from `start` to `end`.
#[derive(Clone, Copy, Debug, PartialEq, Eq, Structural)]
pub struct Segment {
    pub start: Point,
    pub end: Point,
    pub color: LineColor,
}

/// The overlay's state: whether it is shown, how many whole units the grid
/// reaches from the origin along `x` and along `z`, and the spacing of its lines
/// in thousandths of a unit.
#[derive(Clone, Copy, Debug, PartialEq, Eq, Structural)]
pub struct Grid {
    pub enabled: bool,
    pub size: i32,
    pub cell_size: u32,
}

/// The grey line along `z` that crosses the `x` axis at `pos`.
pub open spec fn line_along_z(pos: int, reach: int) -> Segment {
    Segment {
        start: Point { x: pos as i64, y: 0, z: (-reach) as i64 },
        end: Point { x: pos as i64, y: 0, z: reach as i64 },
        color: LineColor::Grey,
    }
}

/// The grey line along `x` that crosses the `z` axis at `pos`.
pub open spec fn line_along_x(pos: int, reach: int) -> Segment {
    Segment {
        start: Point { x: (-reach) as i64, y: 0, z: pos as i64 },
        end: Point { x: reach as i64, y: 0, z: pos as i64 },
        color: LineColor::Grey,
    }
}

/// The three axis lines through the origin: `x` in red, `y` in green, `z` in blue.
pub open spec fn axis_line(which: int) -> Segment {
    if which == 0 {
        Segment {
            start: Point { x: (-AXIS_REACH) as i64, y: 0, z: 0 },
            end: Point { x: AXIS_REACH, y: 0, z: 0 },
            color: LineColor::Red,
        }
    } else if which == 1 {
        Segment {
            start: Point { x: 0, y: (-AXIS_REACH) as i64, z: 0 },
            end: Point { x: 0, y: AXIS_REACH, z: 0 },
            color: LineColor::Green,
        }
    } else {
        Segment {
            start: Point { x: 0, y: 0, z: (-AXIS_REACH) as i64 },
            end: Point { x: 0, y: 0, z: AXIS_REACH },
            color: LineColor::Blue,
        }
    }
}

impl Grid {
    /// The overlay after a tick in which the toggle key did or did not go down.
    /// Only the moment of pressing counts: a key that stays down reports no
    /// further press.
    pub open spec fn after_key(self, just_pressed: bool) -> Grid {
        Grid { enabled: self.enabled != just_pressed, size: self.size, cell_size: self.cell_size }
    }

    /// The overlay after a run of ticks, each saying whether the key went down.
    pub open spec fn after_keys(self, presses: Seq<bool>) -> Grid
        decreases presses.len(),
    {
        if presses.len() == 0 {
            self
        } else {
            self.after_keys(presses.drop_last()).after_key(presses.last())
        }
    }

    /// How far the grid reaches from the origin along `x` and along `z`, in
    /// thousandths.
    pub open spec fn reach(self) -> int {
        self.size * UNIT
    }

    /// How many lines lie to each side of the line through the origin: one for
    /// every multiple of the spacing that is still within reach. With a spacing
    /// of zero every multiple is the origin itself, so there is none.
    pub open spec fn steps(self) -> int {
        if self.size < 0 || self.cell_size == 0 {
            0
        } else {
            self.reach() / (self.cell_size as int)
        }
    }

    /// Number of grid lines per direction: the one through the origin and
    /// `steps` to each side of it; none for a negative size.
    pub open spec fn rows(self) -> int {
        if self.size >= 0 {
            2 * self.steps() + 1
        } else {
            0
        }
    }

    /// How many lines the overlay draws.
    pub open spec fn line_count(self) -> int {
        if self.enabled {
            2 * self.rows() + 3
        } else {
            0
        }
    }

    /// How far from the origin the `k`-th grid line lies: the lines come in
    /// pairs, and pair `k / 2` lies `k / 2 - steps` spacings from the origin.
    pub open spec fn offset_at(self, k: int) -> int {
        (k / 2 - self.steps()) * self.cell_size
    }

    /// The `k`-th line in drawing order. The grid lines come first, from the
    /// lowest offset to the highest; at each offset first the line along `z`,
    /// then the line along `x`, both from one side of the square to the other.
    /// The axes follow.
    pub open spec fn line_at(self, k: int) -> Segment {
        if k < 2 * self.rows() {
            if k % 2 == 0 {
                line_along_z(self.offset_at(k), self.reach())
            } else {
                line_along_x(self.offset_at(k), self.reach())
            }
        } else {
            axis_line(k - 2 * self.rows())
        }
    }

    /// Every line of the overlay in drawing order; none while it is switched off.
    pub open spec fn drawn(self) -> Seq<Segment> {
        Seq::new(self.line_count() as nat, |k: int| self.line_at(k))
    }

    /// A hidden overlay of the given reach and spacing.
    pub fn new(size: i32, cell_size: u32) -> (grid: Grid)
        ensures
            grid == (Grid { enabled: false, size, cell_size }),
    {
        Grid { enabled: false, size, cell_size }
    }

    /// Takes in one tick of the toggle key: flips the overlay if the key went
    /// down in this tick, and leaves it alone otherwise.
    pub fn toggle_on_press(&mut self, just_pressed: bool)
        ensures
            *final(self) == old(self).after_key(just_pressed),
    {
        if just_pressed {
            self.enabled = !self.enabled;
        }
    }

    /// The lines to draw in this tick: nothing while the overlay is off; else
    /// the square grid of `size` units to each side of the origin, ruled every
    /// `cell_size` outwards from the origin, and then the three axes. A spacing
    /// of zero, or one wider than the square, leaves only the two grid lines
    /// through the origin; a negative size leaves only the axes.
    pub fn lines(&self) -> (segments: Vec<Segment>)
        ensures
            segments@ == self.drawn(),
    {
        let mut segments: Vec<Segment> = Vec::new();
        if !self.enabled {
            return segments;
        }
        if self.size >= 0 {
            let cell: i64 = self.cell_size as i64;
            let reach: i64 = self.size as i64 * UNIT;
            let steps: i64 = if cell == 0 {
                0
            } else {
                reach / cell
            };
            proof {
                lemma_steps_fit(reach as int, cell as int);
            }
            let mut j: i64 = -steps;
            while j <= steps
                invariant
                    self.enabled,
                    self.size >= 0,
                    cell == self.cell_size,
                    reach == self.reach(),
                    steps == self.steps(),
                    0 <= steps * cell <= reach <= 0x8000_0000 * 1000,
                    -steps <= j <= steps + 1,
                    segments@.len() == 2 * (j + steps),
                    forall|k: int| 0 <= k < segments@.len() ==> segments@[k] == self.line_at(k),
                decreases steps + 1 - j,
            {
                assert(-reach <= j * cell <= reach) by (nonlinear_arith)
                    requires
                        -steps <= j <= steps,
                        0 <= steps * cell <= reach,
                        0 <= cell,
                ;
                let offset: i64 = j * cell;
                let ghost k = segments@.len() as int;
                segments.push(
                    Segment {
                        start: Point { x: offset, y: 0, z: -reach },
                        end: Point { x: offset, y: 0, z: reach },
                        color: LineColor::Grey,
                    },
                );
                segments.push(
                    Segment {
                        start: Point { x: -reach, y: 0, z: offset },
                        end: Point { x: reach, y: 0, z: offset },
                        color: LineColor::Grey,
                    },
                );
                proof {
                    assert(k / 2 - steps == j && k % 2 == 0);
                    assert((k + 1) / 2 - steps == j && (k + 1) % 2 == 1);
                }
                j = j + 1;
            }
        }
        segments.push(
            Segment {
                start: Point { x: -AXIS_REACH, y: 0, z: 0 },
                end: Point { x: AXIS_REACH, y: 0, z: 0 },
                color: LineColor::Red,
            },
        );
        segments.push(
            Segment {
                start: Point { x: 0, y: -AXIS_REACH, z: 0 },
                end: Point { x: 0, y: AXIS_REACH, z: 0 },
                color: LineColor::Green,
            },
        );
        segments.push(
            Segment {
                start: Point { x: 0, y: 0, z: -AXIS_REACH },
                end: Point { x: 0, y: 0, z: AXIS_REACH },
                color: LineColor::Blue,
            },
        );
        assert(segments@ =~= self.drawn());
        segments
    }
}

/// As many steps of `cell` as fit within `reach` stay within it, and one more
/// would not.
proof fn lemma_steps_fit(reach: int, cell: int)
    requires
        0 <= reach,
        0 <= cell,
    ensures
        cell == 0 ==> 0 * cell == 0,
        cell > 0 ==> 0 <= reach / cell && 0 <= (reach / cell) * cell <= reach < (reach / cell
            + 1) * cell,
{
    if cell > 0 {
        lemma_fundamental_div_mod(reach, cell);
        lemma_mod_bound(reach, cell);
        lemma_div_pos_is_pos(reach, cell);
        let q = reach / cell;
        assert(cell * q == q * cell && (q + 1) * cell == q * cell + cell) by (nonlinear_arith);
        assert(0 <= q * cell) by (nonlinear_arith)
            requires
                0 <= q,
                0 < cell,
        ;
    }
}

/// The grid is a square of `size` units to each side of the origin, ruled at the
/// spacing `cell_size`. Every grid line is grey and lies in the ground plane. It
/// runs from one side of the square to the other at an offset that is a whole
/// multiple of the spacing within the square, the same offsets along `x` as
/// along `z`. Each pair of lines lies one spacing beyond the pair before it, the
/// first and last pairs lie equally far from the origin, and no further multiple
/// of the spacing would fit within the square.
pub proof fn lemma_grid_is_square(grid: Grid, k: int)
    requires
        grid.size >= 0,
        0 <= k < 2 * grid.rows(),
    ensures
        grid.line_at(k).color == LineColor::Grey,
        grid.line_at(k).start.y == 0 && grid.line_at(k).end.y == 0,
        -grid.reach() <= grid.offset_at(k) <= grid.reach(),
        k % 2 == 0 ==> grid.line_at(k).start.x == grid.offset_at(k) && grid.line_at(k).end.x
            == grid.offset_at(k) && grid.line_at(k).start.z == -grid.reach() && grid.line_at(
            k,
        ).end.z == grid.reach(),
        k % 2 == 1 ==> grid.line_at(k).start.z == grid.offset_at(k) && grid.line_at(k).end.z
            == grid.offset_at(k) && grid.line_at(k).start.x == -grid.reach() && grid.line_at(
            k,
        ).end.x == grid.reach(),
        k % 2 == 0 ==> grid.offset_at(k + 1) == grid.offset_at(k),
        k + 2 < 2 * grid.rows() ==> grid.offset_at(k + 2) == grid.offset_at(k) + grid.cell_size,
        grid.offset_at(0) == -grid.offset_at(2 * grid.rows() - 1),
        grid.offset_at(2 * grid.steps()) == 0,
        grid.cell_size > 0 ==> grid.offset_at(2 * grid.rows() - 1) + grid.cell_size
            > grid.reach(),
        grid.cell_size == 0 ==> grid.rows() == 1,
{
    let cell = grid.cell_size as int;
    let steps = grid.steps();
    let reach = grid.reach();
    lemma_steps_fit(reach, cell);
    let j = k / 2 - steps;
    assert(steps * cell >= 0 && 0 * cell == 0) by (nonlinear_arith)
        requires
            steps >= 0,
            cell >= 0,
    ;
    assert(-reach <= j * cell <= reach) by (nonlinear_arith)
        requires
            -steps <= j <= steps,
            0 <= steps * cell <= reach,
            0 <= cell,
    ;
    assert((j + 1) * cell == j * cell + cell) by (nonlinear_arith);
    assert((0 - steps) * cell == -(steps * cell)) by (nonlinear_arith);
    assert((steps + 1) * cell == steps * cell + cell) by (nonlinear_arith);
    assert((2 * grid.rows() - 1) / 2 - steps == steps);
    assert((2 * steps) / 2 - steps == 0);
    assert((k + 2) / 2 - steps == j + 1);
    assert(k % 2 == 0 ==> (k + 1) / 2 - steps == j);
}

/// A tick without a fresh press of the key leaves the overlay as it was, so a key
/// held down over any number of ticks toggles the overlay once, not again.
pub proof fn lemma_held_key_toggles_once(grid: Grid, held_ticks: nat)
    ensures
        grid.after_key(false) == grid,
        grid.after_keys(Seq::new(held_ticks, |k: int| false)) == grid,
        grid.after_keys(seq![true] + Seq::new(held_ticks, |k: int| false)) == grid.after_key(true),
    decreases held_ticks,
{
    let quiet = Seq::new(held_ticks, |k: int| false);
    let pressed = seq![true] + quiet;
    if held_ticks == 0 {
        assert(pressed.drop_last() =~= Seq::<bool>::empty());
        assert(grid.after_keys(pressed.drop_last()) == grid);
    } else {
        let shorter = (held_ticks - 1) as nat;
        lemma_held_key_toggles_once(grid, shorter);
        assert(quiet.drop_last() =~= Seq::new(shorter, |k: int| false));
        assert(pressed.drop_last() =~= seq![true] + Seq::new(shorter, |k: int| false));
    }
}

/// Two presses bring the overlay back to where it was.
pub proof fn lemma_two_presses_cancel(grid: Grid)
    ensures
        grid.after_key(true).after_key(true) == grid,
{
}

} // verus!
