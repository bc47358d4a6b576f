//! The game's tunable constants, in the library's fixed-point units.
//!
//! Unit conventions, used throughout the crate:
//!
//! * **Length**: milli-pixels. A screen pixel is 1000 units, so the 720-pixel
//!   playfield height is `720_000`.
//! * **Time**: milliseconds.
//! * **Speed**: milli-pixels per millisecond. This equals pixels per second,
//!   so the familiar pixel-per-second figures carry over unchanged.
//! * **Angle**: millionths of a half-turn, i.e. units of pi * 10^-6 radians.
//!   [`PI`] is the representation of pi itself. A ball direction of 0 points
//!   straight up and angles grow clockwise; displacement per tick is
//!   `(sin(direction), cos(direction)) * speed * dt`.
//! * **Trigonometric values**: scaled by [`TRIG_SCALE`], so `sin(pi/2)` is
//!   represented as `1_000_000`.

use vstd::prelude::*;

verus! {

/// Playfield height in milli-pixels (720 pixels).
pub const WINDOW_HEIGHT: i64 = 720_000;

/// Playfield width in milli-pixels: the height at a 16:9 aspect ratio
/// (1280 pixels), so `WINDOW_WIDTH * 9 == WINDOW_HEIGHT * 16`.
pub const WINDOW_WIDTH: i64 = 1_280_000;

/// Racket height in milli-pixels (100 pixels).
pub const RACKET_HEIGHT: i64 = 100_000;

/// Racket width in milli-pixels (20 pixels).
pub const RACKET_WIDTH: i64 = 20_000;

/// Horizontal distance of each racket's centre from its wall, in
/// milli-pixels (50 pixels).
pub const RACKET_EDGE_OFFSET: i64 = 50_000;

/// Racket speed in milli-pixels per millisecond (400 pixels per second).
pub const RACKET_SPEED: i64 = 400;

/// Ball side length in milli-pixels (5 pixels).
pub const BALL_SIZE: i64 = 5_000;

/// Ball speed in milli-pixels per millisecond (500 pixels per second).
pub const BALL_SPEED: i64 = 500;

/// The angle unit is pi * 10^-6 radians, so pi itself is one million units.
pub const PI: i64 = 1_000_000;

/// A full turn: two pi.
pub const TWO_PI: i64 = PI * 2;

/// A quarter turn: half pi, the serve direction toward player two's side
/// (its negation serves toward player one's side).
pub const HALF_PI: i64 = 500_000;

/// Half the playfield height: the walls sit at `y == HALF_WINDOW_HEIGHT`
/// and `y == -HALF_WINDOW_HEIGHT`.
pub const HALF_WINDOW_HEIGHT: i64 = 360_000;

/// Half the playfield width: the goal lines sit at `x == HALF_WINDOW_WIDTH`
/// and `x == -HALF_WINDOW_WIDTH`.
pub const HALF_WINDOW_WIDTH: i64 = 640_000;

/// Half of [`RACKET_HEIGHT`].
pub const HALF_RACKET_HEIGHT: i64 = 50_000;

/// Half of [`RACKET_WIDTH`].
pub const HALF_RACKET_WIDTH: i64 = 10_000;

/// Half of [`BALL_SIZE`].
pub const HALF_BALL_SIZE: i64 = 2_500;

/// The farthest a racket's centre may stand from the playfield's vertical
/// centre: at this bound the racket's edge touches the wall.
pub const RACKET_Y_LIMIT: i64 = HALF_WINDOW_HEIGHT - HALF_RACKET_HEIGHT;

/// Scale factor of the fixed-point sine and cosine values handed to the
/// motion update: a trigonometric value v is represented as `v * TRIG_SCALE`
/// rounded to an integer.
pub const TRIG_SCALE: i64 = 1_000_000;

/// Numerator of the scatter factor 0.3: the fraction of `PI` contributed to
/// the scatter angle per racket height of offset between ball and racket.
pub const SCATTER_NUM: i64 = 3;

/// Denominator of the scatter factor 0.3.
pub const SCATTER_DEN: i64 = 10;

/// Scatter angle units per milli-pixel of vertical offset between ball and
/// racket centre. This is the exact value of
/// `SCATTER_NUM / SCATTER_DEN * PI / RACKET_HEIGHT`, which the chosen units
/// make a whole number (`SCATTER_SCALE * SCATTER_DEN * RACKET_HEIGHT ==
/// SCATTER_NUM * PI`), so the scatter formula stays exact; the laws module
/// proves both identities of this file.
pub const SCATTER_SCALE: i64 = 3;

/// Coarse bound on coordinate magnitudes accepted by the update functions;
/// far beyond the playfield, it only keeps the 64-bit arithmetic exact.
pub const POS_LIMIT: i64 = 1_000_000_000_000;

/// Coarse bound on direction-angle magnitudes accepted by the update
/// functions; it only keeps the 64-bit arithmetic exact.
pub const DIR_LIMIT: i64 = 1_000_000_000_000_000;

/// Coarse bound on a single frame's time delta (an hour), only so that
/// displacement products fit in 64 bits.
pub const DT_LIMIT: i64 = 3_600_000;

} // verus!
