//! The library's stated laws, proved once and for all inputs.

use vstd::prelude::*;

use crate::angle::{dir_mod_two_pi, scatter_angle, wall_reflect};
use crate::config::{BALL_SIZE, HALF_BALL_SIZE, HALF_PI, HALF_RACKET_HEIGHT, HALF_RACKET_WIDTH,
    HALF_WINDOW_HEIGHT, HALF_WINDOW_WIDTH, PI, RACKET_HEIGHT, RACKET_WIDTH, RACKET_Y_LIMIT,
    SCATTER_DEN, SCATTER_NUM, SCATTER_SCALE, TWO_PI, WINDOW_HEIGHT, WINDOW_WIDTH};
use crate::state::{Player, Racket};
use crate::systems::{collides, controlled_y, racket_bounced_direction};

verus! {

/// Wall reflection takes any direction angle to `pi` minus it, so applying
/// it twice gives the original angle back exactly — and therefore also
/// modulo a full turn.
pub proof fn lemma_wall_reflection_involution(direction: int)
    ensures
        wall_reflect(wall_reflect(direction)) == direction,
        dir_mod_two_pi(wall_reflect(wall_reflect(direction))) == dir_mod_two_pi(direction),
{
}

/// The scatter angle is linear in the ball's vertical offset from the
/// racket's centre: doubling the offset doubles the scatter term (stated for
/// offsets within the racket's half-height, where a centred overlap is
/// possible, though the formula is linear everywhere).
pub proof fn lemma_scatter_linear(racket_y: int, offset: int)
    requires
        -HALF_RACKET_HEIGHT <= offset <= HALF_RACKET_HEIGHT,
    ensures
        scatter_angle(racket_y + 2 * offset, racket_y) == 2 * scatter_angle(
            racket_y + offset,
            racket_y,
        ),
{
}

/// One frame of racket control keeps a racket's centre within
/// `RACKET_Y_LIMIT`, that is `HALF_WINDOW_HEIGHT - HALF_RACKET_HEIGHT`, of
/// the playfield's vertical centre, whatever keys are held and however large
/// the frame's step; [`lemma_racket_bounded_after_any_updates`] extends this
/// to any number of frames.
pub proof fn lemma_racket_stays_in_bounds(y: int, up: bool, down: bool, step: int)
    requires
        -RACKET_Y_LIMIT <= y <= RACKET_Y_LIMIT,
        0 <= step,
    ensures
        -RACKET_Y_LIMIT <= controlled_y(y, up, down, step) <= RACKET_Y_LIMIT,
{
}

/// Scatter linearity at the reflection rule itself: a ball eligible for a
/// racket's reflection (the right heading for that racket's side) that
/// overlaps it at twice the vertical offset leaves with twice the deviation
/// from the plain reversal `2*pi - direction`, for either racket.
pub proof fn lemma_bounce_scatter_doubles(
    ball_x: int,
    direction: int,
    racket: Racket,
    offset: int,
)
    requires
        racket.player == Player::One ==> dir_mod_two_pi(direction) >= PI,
        racket.player == Player::Two ==> dir_mod_two_pi(direction) <= PI,
        collides(ball_x, racket.y + offset, racket.x as int, racket.y as int),
        collides(ball_x, racket.y + 2 * offset, racket.x as int, racket.y as int),
    ensures
        racket_bounced_direction(ball_x, racket.y + 2 * offset, direction, racket) - (2 * PI
            - direction) == 2 * (racket_bounced_direction(ball_x, racket.y + offset, direction, racket)
            - (2 * PI - direction)),
{
}

/// A racket's vertical position after a run of control frames, each a key
/// pair and a nonnegative step.
pub open spec fn controlled_y_after(y: int, frames: Seq<(bool, bool, int)>) -> int
    decreases frames.len(),
{
    if frames.len() == 0 {
        y
    } else {
        controlled_y_after(
            controlled_y(y, frames[0].0, frames[0].1, frames[0].2),
            frames.drop_first(),
        )
    }
}

/// A racket starting within `RACKET_Y_LIMIT` of the playfield's vertical
/// centre is still within it after any number of control updates, whatever
/// keys are held in each frame and however large each frame's step.
pub proof fn lemma_racket_bounded_after_any_updates(y: int, frames: Seq<(bool, bool, int)>)
    requires
        -RACKET_Y_LIMIT <= y <= RACKET_Y_LIMIT,
        forall|i: int| 0 <= i < frames.len() ==> #[trigger] frames[i].2 >= 0,
    ensures
        -RACKET_Y_LIMIT <= controlled_y_after(y, frames) <= RACKET_Y_LIMIT,
    decreases frames.len(),
{
    if frames.len() > 0 {
        lemma_racket_stays_in_bounds(y, frames[0].0, frames[0].1, frames[0].2);
        assert forall|i: int| 0 <= i < frames.drop_first().len() implies #[trigger] frames.drop_first()[i].2 >= 0 by {
            assert(frames.drop_first()[i] == frames[i + 1]);
        }
        lemma_racket_bounded_after_any_updates(
            controlled_y(y, frames[0].0, frames[0].1, frames[0].2),
            frames.drop_first(),
        );
    }
}

/// The constants of [`crate::config`] fit together: each half is half of
/// its whole, the playfield is 16:9, and the scatter scale is the exact
/// value of `SCATTER_NUM / SCATTER_DEN * PI / RACKET_HEIGHT`.
pub proof fn lemma_config_consistent()
    ensures
        WINDOW_WIDTH * 9 == WINDOW_HEIGHT * 16,
        2 * HALF_WINDOW_HEIGHT == WINDOW_HEIGHT,
        2 * HALF_WINDOW_WIDTH == WINDOW_WIDTH,
        2 * HALF_PI == PI,
        TWO_PI == 2 * PI,
        2 * HALF_RACKET_HEIGHT == RACKET_HEIGHT,
        2 * HALF_RACKET_WIDTH == RACKET_WIDTH,
        2 * HALF_BALL_SIZE == BALL_SIZE,
        RACKET_Y_LIMIT == HALF_WINDOW_HEIGHT - HALF_RACKET_HEIGHT,
        SCATTER_SCALE * (SCATTER_DEN * RACKET_HEIGHT) == SCATTER_NUM * PI,
{
}

} // verus!
