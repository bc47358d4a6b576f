//! The per-frame update routines. The host's driver calls them once per
//! frame in this order: [`control_rackets`], then [`bounce_ball`], then
//! [`move_ball`], with [`score_goal`] after motion and [`serve_ball`] at any
//! point; that way a racket's fresh position feeds the frame's collision
//! test and a fresh direction feeds the frame's displacement.

use vstd::prelude::*;

use crate::angle::{dir_mod_two_pi, modulus, scatter, scatter_angle, wall_reflect};
use crate::config::{BALL_SPEED, DIR_LIMIT, DT_LIMIT, HALF_BALL_SIZE, HALF_PI,
    HALF_RACKET_HEIGHT, HALF_RACKET_WIDTH, HALF_WINDOW_HEIGHT, HALF_WINDOW_WIDTH, PI, POS_LIMIT,
    RACKET_SPEED, RACKET_Y_LIMIT, TRIG_SCALE, TWO_PI};
use crate::digits::{dec_str, u64_to_decimal};
use crate::state::{Ball, Player, Racket, Scoreboard};

verus! {

/// Axis-aligned overlap test between the ball (a square of side
/// `BALL_SIZE`, given by its centre) and a racket (`RACKET_WIDTH` by
/// `RACKET_HEIGHT`, given by its centre): the racket's box, expanded by half
/// the ball size on each side, contains the ball's centre.
pub open spec fn collides(ball_x: int, ball_y: int, racket_x: int, racket_y: int) -> bool {
    &&& ball_x >= racket_x - HALF_RACKET_WIDTH - HALF_BALL_SIZE
    &&& ball_x <= racket_x + HALF_RACKET_WIDTH + HALF_BALL_SIZE
    &&& ball_y >= racket_y - HALF_RACKET_HEIGHT - HALF_BALL_SIZE
    &&& ball_y <= racket_y + HALF_RACKET_HEIGHT + HALF_BALL_SIZE
}

/// A racket's vertical position after one frame of its owner's key pair:
/// while "up" is held and the racket has not reached the top wall, it rises
/// by `step`, stopping at the wall; then symmetrically for "down". With
/// neither key held it does not move.
pub open spec fn controlled_y(y: int, up: bool, down: bool, step: int) -> int {
    let y_up = if up && y < RACKET_Y_LIMIT {
        if y + step > RACKET_Y_LIMIT {
            RACKET_Y_LIMIT as int
        } else {
            y + step
        }
    } else {
        y
    };
    if down && y_up > -RACKET_Y_LIMIT {
        if y_up - step < -RACKET_Y_LIMIT {
            -RACKET_Y_LIMIT as int
        } else {
            y_up - step
        }
    } else {
        y_up
    }
}

/// The ball's direction after the wall test: reflected about the horizontal
/// axis whenever the ball stands at or past the top or bottom wall. The test
/// is on position alone, so a ball lingering at the wall reflects again each
/// frame.
pub open spec fn wall_bounced_direction(ball_y: int, direction: int) -> int {
    if ball_y >= HALF_WINDOW_HEIGHT || ball_y <= -HALF_WINDOW_HEIGHT {
        wall_reflect(direction)
    } else {
        direction
    }
}

/// The ball's direction after the test against one racket: when the ball is
/// headed for that racket's side (direction reduced into `[0, 2*pi)` lies in
/// the left half-turn for player one's racket, the right one for player
/// two's) and overlaps it, the direction is reversed to `2*pi - direction`
/// and the scatter angle is taken off toward player one's wall or added
/// toward player two's. The test is on overlap alone, so a sustained overlap
/// reflects again each frame.
pub open spec fn racket_bounced_direction(ball_x: int, ball_y: int, direction: int, racket: Racket) -> int {
    if racket.player == Player::One && dir_mod_two_pi(direction) >= PI && collides(ball_x, ball_y, racket.x as int, racket.y as int) {
        2 * PI - direction - scatter_angle(ball_y, racket.y as int)
    } else if racket.player == Player::Two && dir_mod_two_pi(direction) <= PI && collides(ball_x, ball_y, racket.x as int, racket.y as int) {
        2 * PI - direction + scatter_angle(ball_y, racket.y as int)
    } else {
        direction
    }
}

/// A fixed-point trigonometric value times the ball's speed and the frame's
/// time delta, scaled back down: the frame's displacement along one axis, in
/// milli-pixels (rounded toward minus infinity).
pub open spec fn scaled_displacement(trig: int, dt: int) -> int {
    (trig * BALL_SPEED * dt) / (TRIG_SCALE as int)
}

/// One frame of racket control for both rackets. `p1_up` and `p1_down` say
/// whether player one's key pair is held, `p2_up` and `p2_down` player
/// two's; a racket answers to the key pair of its own player. `dt` is the
/// frame's time delta in milliseconds. Each racket moves at `RACKET_SPEED`
/// and stops at the walls, so a racket within bounds stays within bounds.
pub fn control_rackets(
    racket1: &mut Racket,
    racket2: &mut Racket,
    p1_up: bool,
    p1_down: bool,
    p2_up: bool,
    p2_down: bool,
    dt: i64,
)
    requires
        0 <= dt <= DT_LIMIT,
        -RACKET_Y_LIMIT <= old(racket1).y <= RACKET_Y_LIMIT,
        -RACKET_Y_LIMIT <= old(racket2).y <= RACKET_Y_LIMIT,
    ensures
        final(racket1).player == old(racket1).player,
        final(racket1).x == old(racket1).x,
        final(racket1).y == controlled_y(
            old(racket1).y as int,
            if old(racket1).player == Player::One { p1_up } else { p2_up },
            if old(racket1).player == Player::One { p1_down } else { p2_down },
            RACKET_SPEED * dt,
        ),
        final(racket2).player == old(racket2).player,
        final(racket2).x == old(racket2).x,
        final(racket2).y == controlled_y(
            old(racket2).y as int,
            if old(racket2).player == Player::One { p1_up } else { p2_up },
            if old(racket2).player == Player::One { p1_down } else { p2_down },
            RACKET_SPEED * dt,
        ),
        -RACKET_Y_LIMIT <= final(racket1).y <= RACKET_Y_LIMIT,
        -RACKET_Y_LIMIT <= final(racket2).y <= RACKET_Y_LIMIT,
{
    let step = RACKET_SPEED * dt;
    control_one_racket(racket1, p1_up, p1_down, p2_up, p2_down, step);
    control_one_racket(racket2, p1_up, p1_down, p2_up, p2_down, step);
}

/// One frame of racket control for one racket, against its own player's key
/// pair.
fn control_one_racket(
    racket: &mut Racket,
    p1_up: bool,
    p1_down: bool,
    p2_up: bool,
    p2_down: bool,
    step: i64,
)
    requires
        0 <= step <= RACKET_SPEED * DT_LIMIT,
        -RACKET_Y_LIMIT <= old(racket).y <= RACKET_Y_LIMIT,
    ensures
        final(racket).player == old(racket).player,
        final(racket).x == old(racket).x,
        final(racket).y == controlled_y(
            old(racket).y as int,
            if old(racket).player == Player::One { p1_up } else { p2_up },
            if old(racket).player == Player::One { p1_down } else { p2_down },
            step as int,
        ),
        -RACKET_Y_LIMIT <= final(racket).y <= RACKET_Y_LIMIT,
{
    let up = if matches!(racket.player, Player::One) { p1_up } else { p2_up };
    let down = if matches!(racket.player, Player::One) { p1_down } else { p2_down };
    if up && racket.y < RACKET_Y_LIMIT {
        let risen = racket.y + step;
        racket.y = if risen > RACKET_Y_LIMIT { RACKET_Y_LIMIT } else { risen };
    }
    if down && racket.y > -RACKET_Y_LIMIT {
        let sunk = racket.y - step;
        racket.y = if sunk < -RACKET_Y_LIMIT { -RACKET_Y_LIMIT } else { sunk };
    }
}

/// The serve trigger: on the frame the serve key is pressed, the ball
/// starts moving; nothing else changes, and a moving ball stays moving.
pub fn serve_ball(ball: &mut Ball, serve_pressed: bool)
    ensures
        final(ball).moving == (old(ball).moving || serve_pressed),
        final(ball).x == old(ball).x,
        final(ball).y == old(ball).y,
        final(ball).direction == old(ball).direction,
{
    if serve_pressed {
        ball.moving = true;
    }
}

/// The overlap test of [`collides`], on the ball's and a racket's positions.
pub fn are_colliding(ball: &Ball, racket: &Racket) -> (overlapping: bool)
    requires
        -POS_LIMIT <= ball.x <= POS_LIMIT,
        -POS_LIMIT <= ball.y <= POS_LIMIT,
        -POS_LIMIT <= racket.x <= POS_LIMIT,
        -POS_LIMIT <= racket.y <= POS_LIMIT,
    ensures
        overlapping == collides(ball.x as int, ball.y as int, racket.x as int, racket.y as int),
{
    ball.x >= racket.x - HALF_RACKET_WIDTH - HALF_BALL_SIZE
        && ball.x <= racket.x + HALF_RACKET_WIDTH + HALF_BALL_SIZE
        && ball.y >= racket.y - HALF_RACKET_HEIGHT - HALF_BALL_SIZE
        && ball.y <= racket.y + HALF_RACKET_HEIGHT + HALF_BALL_SIZE
}

/// One frame of reflection: the wall test first, then the racket test
/// against each racket in argument order, each later test seeing the
/// direction the earlier ones left. Position and the moving flag are
/// untouched.
pub fn bounce_ball(ball: &mut Ball, racket1: &Racket, racket2: &Racket)
    requires
        -DIR_LIMIT <= old(ball).direction <= DIR_LIMIT,
        -POS_LIMIT <= old(ball).x <= POS_LIMIT,
        -POS_LIMIT <= old(ball).y <= POS_LIMIT,
        -POS_LIMIT <= racket1.x <= POS_LIMIT,
        -POS_LIMIT <= racket1.y <= POS_LIMIT,
        -POS_LIMIT <= racket2.x <= POS_LIMIT,
        -POS_LIMIT <= racket2.y <= POS_LIMIT,
    ensures
        final(ball).direction == racket_bounced_direction(
            old(ball).x as int,
            old(ball).y as int,
            racket_bounced_direction(
                old(ball).x as int,
                old(ball).y as int,
                wall_bounced_direction(old(ball).y as int, old(ball).direction as int),
                *racket1,
            ),
            *racket2,
        ),
        final(ball).x == old(ball).x,
        final(ball).y == old(ball).y,
        final(ball).moving == old(ball).moving,
{
    if ball.y >= HALF_WINDOW_HEIGHT || ball.y <= -HALF_WINDOW_HEIGHT {
        ball.direction = PI - ball.direction;
    }
    bounce_off_racket(ball, racket1);
    bounce_off_racket(ball, racket2);
}

/// The racket-reflection rule against one racket, as
/// [`racket_bounced_direction`] gives it.
fn bounce_off_racket(ball: &mut Ball, racket: &Racket)
    requires
        -(DIR_LIMIT + 8 * PI) <= old(ball).direction <= DIR_LIMIT + 8 * PI,
        -POS_LIMIT <= old(ball).x <= POS_LIMIT,
        -POS_LIMIT <= old(ball).y <= POS_LIMIT,
        -POS_LIMIT <= racket.x <= POS_LIMIT,
        -POS_LIMIT <= racket.y <= POS_LIMIT,
    ensures
        final(ball).direction == racket_bounced_direction(
            old(ball).x as int,
            old(ball).y as int,
            old(ball).direction as int,
            *racket,
        ),
        final(ball).x == old(ball).x,
        final(ball).y == old(ball).y,
        final(ball).moving == old(ball).moving,
{
    match racket.player {
        Player::One => {
            if modulus(ball.direction, TWO_PI) >= PI && are_colliding(ball, racket) {
                let scatter_term = scatter(ball.y, racket.y);
                ball.direction = TWO_PI - ball.direction - scatter_term;
            }
        },
        Player::Two => {
            if modulus(ball.direction, TWO_PI) <= PI && are_colliding(ball, racket) {
                let scatter_term = scatter(ball.y, racket.y);
                ball.direction = TWO_PI - ball.direction + scatter_term;
            }
        },
    }
}

/// One frame of motion: while the ball is moving, its position advances by
/// `(sin(direction), cos(direction)) * BALL_SPEED * dt`. The host supplies
/// `dir_sin` and `dir_cos`, the sine and cosine of the ball's current
/// direction angle scaled by `TRIG_SCALE`; the library takes them as given,
/// since they are the one irrational step of the game. A stationary ball
/// does not change at all.
pub fn move_ball(ball: &mut Ball, dir_sin: i64, dir_cos: i64, dt: i64)
    requires
        -TRIG_SCALE <= dir_sin <= TRIG_SCALE,
        -TRIG_SCALE <= dir_cos <= TRIG_SCALE,
        0 <= dt <= DT_LIMIT,
        -POS_LIMIT <= old(ball).x <= POS_LIMIT,
        -POS_LIMIT <= old(ball).y <= POS_LIMIT,
    ensures
        final(ball).direction == old(ball).direction,
        final(ball).moving == old(ball).moving,
        old(ball).moving ==> final(ball).x == old(ball).x + scaled_displacement(
            dir_sin as int,
            dt as int,
        ),
        old(ball).moving ==> final(ball).y == old(ball).y + scaled_displacement(
            dir_cos as int,
            dt as int,
        ),
        !old(ball).moving ==> *final(ball) == *old(ball),
{
    if ball.moving {
        proof {
            assert(-1_000_000_000_000_000_000 <= dir_sin * BALL_SPEED * dt
                <= 1_000_000_000_000_000_000) by (nonlinear_arith)
                requires
                    -TRIG_SCALE <= dir_sin <= TRIG_SCALE,
                    0 <= dt <= DT_LIMIT,
            ;
            assert(-1_000_000_000_000_000_000 <= dir_cos * BALL_SPEED * dt
                <= 1_000_000_000_000_000_000) by (nonlinear_arith)
                requires
                    -TRIG_SCALE <= dir_cos <= TRIG_SCALE,
                    0 <= dt <= DT_LIMIT,
            ;
        }
        ball.x = ball.x + scale_down(dir_sin * BALL_SPEED * dt);
        ball.y = ball.y + scale_down(dir_cos * BALL_SPEED * dt);
    }
}

/// Scales a raw trigonometric product back to milli-pixels, rounding toward
/// minus infinity.
fn scale_down(raw: i64) -> (scaled: i64)
    requires
        -1_000_000_000_000_000_000 <= raw <= 1_000_000_000_000_000_000,
    ensures
        scaled == raw as int / TRIG_SCALE as int,
{
    match raw.checked_div_euclid(TRIG_SCALE) {
        Some(scaled) => scaled,
        None => vstd::pervasive::unreached(),
    }
}

/// Goal detection and reset. A ball at or past the left goal line scores
/// for player two; it returns to the centre, stationary, aimed at the
/// serve direction of a quarter turn, and player two's counter and numeral
/// advance (symmetrically on the right, with the opposite serve direction,
/// for player one). Anywhere else, nothing changes. On a goal, both
/// numerals are rewritten from the counters.
pub fn score_goal(ball: &mut Ball, scoreboard: &mut Scoreboard)
    requires
        old(ball).x <= -HALF_WINDOW_WIDTH ==> old(scoreboard).player_scores[1] < u64::MAX,
        old(ball).x >= HALF_WINDOW_WIDTH ==> old(scoreboard).player_scores[0] < u64::MAX,
    ensures
        old(ball).x <= -HALF_WINDOW_WIDTH ==> {
            &&& final(ball).x == 0 && final(ball).y == 0
            &&& final(ball).direction == HALF_PI
            &&& final(ball).moving == false
            &&& final(scoreboard).player_scores[0] == old(scoreboard).player_scores[0]
            &&& final(scoreboard).player_scores[1] == old(scoreboard).player_scores[1] + 1
        },
        old(ball).x >= HALF_WINDOW_WIDTH ==> {
            &&& final(ball).x == 0 && final(ball).y == 0
            &&& final(ball).direction == -HALF_PI
            &&& final(ball).moving == false
            &&& final(scoreboard).player_scores[0] == old(scoreboard).player_scores[0] + 1
            &&& final(scoreboard).player_scores[1] == old(scoreboard).player_scores[1]
        },
        -HALF_WINDOW_WIDTH < old(ball).x < HALF_WINDOW_WIDTH ==> {
            &&& *final(ball) == *old(ball)
            &&& final(scoreboard).player_scores == old(scoreboard).player_scores
            &&& final(scoreboard).display[0] == old(scoreboard).display[0]
            &&& final(scoreboard).display[1] == old(scoreboard).display[1]
        },
        final(scoreboard).display[0]@ == if old(ball).x <= -HALF_WINDOW_WIDTH || old(ball).x
            >= HALF_WINDOW_WIDTH {
            dec_str(final(scoreboard).player_scores[0] as nat)
        } else {
            old(scoreboard).display[0]@
        },
        final(scoreboard).display[1]@ == if old(ball).x <= -HALF_WINDOW_WIDTH || old(ball).x
            >= HALF_WINDOW_WIDTH {
            dec_str(final(scoreboard).player_scores[1] as nat)
        } else {
            old(scoreboard).display[1]@
        },
        old(scoreboard).wf() ==> final(scoreboard).wf(),
{
    if ball.x <= -HALF_WINDOW_WIDTH {
        ball.direction = HALF_PI;
        ball.moving = false;
        ball.x = 0;
        ball.y = 0;
        let scored = scoreboard.player_scores[1] + 1;
        scoreboard.player_scores = [scoreboard.player_scores[0], scored];
        scoreboard.display = [
            u64_to_decimal(scoreboard.player_scores[0]),
            u64_to_decimal(scoreboard.player_scores[1]),
        ];
    }
    if ball.x >= HALF_WINDOW_WIDTH {
        ball.direction = -HALF_PI;
        ball.moving = false;
        ball.x = 0;
        ball.y = 0;
        let scored = scoreboard.player_scores[0] + 1;
        scoreboard.player_scores = [scored, scoreboard.player_scores[1]];
        scoreboard.display = [
            u64_to_decimal(scoreboard.player_scores[0]),
            u64_to_decimal(scoreboard.player_scores[1]),
        ];
    }
}

} // verus!
