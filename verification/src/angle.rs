//! Direction-angle arithmetic: wraparound into `[0, 2*pi)` and the two
//! reflection rules.
//!
//! A direction is stored raw (it may be negative or exceed a full turn, as
//! reflections and resets leave it); it is normalized only where a
//! directional comparison needs it, through [`modulus`].

use vstd::prelude::*;

use crate::config::{PI, POS_LIMIT, SCATTER_SCALE};

verus! {

/// Mathematical (Euclidean) remainder: the unique `r` with
/// `0 <= r < b` and `a == b * q + r`, for `b > 0`.
pub open spec fn emod(a: int, b: int) -> int {
    a % b
}

/// A direction angle reduced into `[0, 2*pi)` for directional comparisons.
pub open spec fn dir_mod_two_pi(direction: int) -> int {
    emod(direction, 2 * PI)
}

/// Wall reflection about the horizontal axis: a direction angle `d` becomes
/// `pi - d`.
pub open spec fn wall_reflect(direction: int) -> int {
    PI - direction
}

/// The scatter angle added on racket contact: linear in the vertical offset
/// of the ball from the racket's centre, at [`SCATTER_SCALE`] angle units
/// per milli-pixel of offset. This is the exact fixed-point value of
/// `SCATTER_NUM / SCATTER_DEN * (ball_y - racket_y) / RACKET_HEIGHT * pi`.
pub open spec fn scatter_angle(ball_y: int, racket_y: int) -> int {
    SCATTER_SCALE * (ball_y - racket_y)
}

/// The remainder of `a` under `b`, mapped into `[0, b)` whatever the sign of
/// `a`.
pub fn modulus(a: i64, b: i64) -> (r: i64)
    requires
        0 < b,
    ensures
        r == emod(a as int, b as int),
{
    match a.checked_rem_euclid(b) {
        Some(r) => r,
        None => vstd::pervasive::unreached(),
    }
}

/// The scatter angle on racket contact, as [`scatter_angle`] gives it.
pub fn scatter(ball_y: i64, racket_y: i64) -> (s: i64)
    requires
        -POS_LIMIT <= ball_y <= POS_LIMIT,
        -POS_LIMIT <= racket_y <= POS_LIMIT,
    ensures
        s == scatter_angle(ball_y as int, racket_y as int),
{
    SCATTER_SCALE * (ball_y - racket_y)
}

} // verus!
