//! The racket, reflection and motion rules on concrete frames.

use pong_core::angle::{modulus, scatter};
use pong_core::config::{HALF_PI, PI, RACKET_Y_LIMIT, TWO_PI};
use pong_core::state::{spawn_ball, spawn_rackets, Ball, Player, Racket};
use pong_core::systems::{are_colliding, bounce_ball, control_rackets, move_ball, serve_ball};

fn far_rackets() -> (Racket, Racket) {
    // Rackets parked where the ball cannot touch them.
    (
        Racket { player: Player::One, x: -590_000, y: -300_000 },
        Racket { player: Player::Two, x: 590_000, y: -300_000 },
    )
}

#[test]
fn spawn_rackets_start_centred_at_the_walls() {
    let (left, right) = spawn_rackets();
    assert_eq!(left.player, Player::One);
    assert_eq!(left.x, -590_000);
    assert_eq!(left.y, 0);
    assert_eq!(right.player, Player::Two);
    assert_eq!(right.x, 590_000);
    assert_eq!(right.y, 0);
}

#[test]
fn spawn_ball_waits_centred_at_a_quarter_turn() {
    let ball = spawn_ball();
    assert_eq!(ball.x, 0);
    assert_eq!(ball.y, 0);
    assert_eq!(ball.direction, HALF_PI);
    assert!(!ball.moving);
}

#[test]
fn racket_moves_up_at_its_speed() {
    let (mut left, mut right) = spawn_rackets();
    control_rackets(&mut left, &mut right, true, false, false, false, 16);
    // 400 milli-pixels per millisecond for 16 ms.
    assert_eq!(left.y, 6_400);
    assert_eq!(right.y, 0);
}

#[test]
fn racket_stops_at_the_wall() {
    let (mut left, mut right) = spawn_rackets();
    left.y = 300_000;
    // A 100 ms frame asks for 40 000 but the wall is 10 000 away.
    control_rackets(&mut left, &mut right, true, false, false, false, 100);
    assert_eq!(left.y, RACKET_Y_LIMIT);
    // Held there, it stays put.
    control_rackets(&mut left, &mut right, true, false, false, false, 100);
    assert_eq!(left.y, RACKET_Y_LIMIT);
    // And the same at the bottom.
    left.y = -300_000;
    control_rackets(&mut left, &mut right, false, true, false, false, 100);
    assert_eq!(left.y, -RACKET_Y_LIMIT);
}

#[test]
fn racket_keys_cancel_and_absent_keys_do_nothing() {
    let (mut left, mut right) = spawn_rackets();
    control_rackets(&mut left, &mut right, true, true, false, false, 16);
    assert_eq!(left.y, 0);
    control_rackets(&mut left, &mut right, false, false, false, false, 1_000);
    assert_eq!(left.y, 0);
    assert_eq!(right.y, 0);
}

#[test]
fn second_player_keys_move_only_the_second_racket() {
    let (mut left, mut right) = spawn_rackets();
    control_rackets(&mut left, &mut right, false, false, false, true, 16);
    assert_eq!(left.y, 0);
    assert_eq!(right.y, -6_400);
}

#[test]
fn serve_starts_the_ball_and_is_otherwise_inert() {
    let mut ball = spawn_ball();
    serve_ball(&mut ball, false);
    assert!(!ball.moving);
    serve_ball(&mut ball, true);
    assert!(ball.moving);
    assert_eq!(ball.direction, HALF_PI);
    serve_ball(&mut ball, true);
    assert!(ball.moving);
}

#[test]
fn modulus_wraps_into_one_turn() {
    assert_eq!(modulus(0, TWO_PI), 0);
    assert_eq!(modulus(2_500_000, TWO_PI), 500_000);
    // The serve toward player one, -pi/2, reads as three quarter turns.
    assert_eq!(modulus(-500_000, TWO_PI), 1_500_000);
    assert_eq!(modulus(TWO_PI, TWO_PI), 0);
}

#[test]
fn scatter_is_linear_in_the_offset() {
    assert_eq!(scatter(10_000, 0), 30_000);
    // Doubling the offset doubles the scatter term.
    assert_eq!(scatter(20_000, 0), 60_000);
    assert_eq!(scatter(-10_000, 0), -30_000);
    assert_eq!(scatter(250_000, 250_000), 0);
}

#[test]
fn wall_reflection_flips_about_the_horizontal() {
    // Ball at the top wall: half of the 720-pixel field.
    let mut ball = Ball { x: 0, y: 360_000, direction: 250_000, moving: true };
    let (far1, far2) = far_rackets();
    bounce_ball(&mut ball, &far1, &far2);
    assert_eq!(ball.direction, PI - 250_000);
    // Lingering at the wall, it reflects again, back to where it started.
    bounce_ball(&mut ball, &far1, &far2);
    assert_eq!(ball.direction, 250_000);
}

#[test]
fn wall_reflection_fires_at_both_walls_and_not_short_of_them() {
    let (far1, far2) = far_rackets();
    let mut ball = Ball { x: 0, y: -360_000, direction: 1_700_000, moving: true };
    bounce_ball(&mut ball, &far1, &far2);
    assert_eq!(ball.direction, PI - 1_700_000);
    let mut shy = Ball { x: 0, y: 359_999, direction: 250_000, moving: true };
    bounce_ball(&mut shy, &far1, &far2);
    assert_eq!(shy.direction, 250_000);
}

#[test]
fn left_racket_reflects_a_left_moving_ball_with_scatter() {
    // 1.5 pi: straight toward the left racket, 10 pixels above its centre.
    let mut ball = Ball { x: -580_000, y: 10_000, direction: 1_500_000, moving: true };
    let left = Racket { player: Player::One, x: -590_000, y: 0 };
    let right = Racket { player: Player::Two, x: 590_000, y: 0 };
    bounce_ball(&mut ball, &left, &right);
    // 2 pi - 1.5 pi - scatter(10 000) = 500 000 - 30 000.
    assert_eq!(ball.direction, 470_000);
}

#[test]
fn right_racket_reflects_a_right_moving_ball_with_scatter() {
    // 0.5 pi: straight toward the right racket, 20 pixels below its centre.
    let mut ball = Ball { x: 580_000, y: -20_000, direction: 500_000, moving: true };
    let left = Racket { player: Player::One, x: -590_000, y: 0 };
    let right = Racket { player: Player::Two, x: 590_000, y: 0 };
    bounce_ball(&mut ball, &left, &right);
    // 2 pi - 0.5 pi + scatter(-20 000) = 1 500 000 - 60 000.
    assert_eq!(ball.direction, 1_440_000);
}

#[test]
fn racket_ignores_a_ball_headed_the_other_way() {
    // Overlapping the left racket but moving right.
    let mut ball = Ball { x: -580_000, y: 0, direction: 500_000, moving: true };
    let left = Racket { player: Player::One, x: -590_000, y: 0 };
    let right = Racket { player: Player::Two, x: 590_000, y: 0 };
    bounce_ball(&mut ball, &left, &right);
    assert_eq!(ball.direction, 500_000);
}

#[test]
fn collision_box_bounds_are_inclusive() {
    let racket = Racket { player: Player::One, x: -590_000, y: 0 };
    // Half racket width plus half ball size: 12 500 either way.
    let on_edge = Ball { x: -602_500, y: 52_500, direction: 0, moving: true };
    assert!(are_colliding(&on_edge, &racket));
    let past_x = Ball { x: -602_501, y: 0, direction: 0, moving: true };
    assert!(!are_colliding(&past_x, &racket));
    let past_y = Ball { x: -590_000, y: 52_501, direction: 0, moving: true };
    assert!(!are_colliding(&past_y, &racket));
}

#[test]
fn motion_advances_by_sine_and_cosine_of_the_direction() {
    // Direction 0.5 pi maps to (sin, cos) = (1, 0): pure x motion.
    // 500 pixels per second for 0.1 s is 50 pixels.
    let mut ball = Ball { x: 0, y: 0, direction: HALF_PI, moving: true };
    move_ball(&mut ball, 1_000_000, 0, 100);
    assert_eq!(ball.x, 50_000);
    assert_eq!(ball.y, 0);
    assert_eq!(ball.direction, HALF_PI);
    assert!(ball.moving);
}

#[test]
fn motion_leaves_a_waiting_ball_alone() {
    let mut ball = spawn_ball();
    move_ball(&mut ball, 1_000_000, 0, 100);
    assert_eq!(ball.x, 0);
    assert_eq!(ball.y, 0);
}

#[test]
fn motion_follows_a_negative_component() {
    let mut ball = Ball { x: 0, y: 0, direction: -HALF_PI, moving: true };
    move_ball(&mut ball, -1_000_000, 0, 100);
    assert_eq!(ball.x, -50_000);
    assert_eq!(ball.y, 0);
}

#[test]
fn motion_rounds_toward_minus_infinity() {
    let mut ball = Ball { x: 0, y: 0, direction: 0, moving: true };
    // 333 333 * 500 * 1 / 1 000 000 is 166.6665: floor each way.
    move_ball(&mut ball, 333_333, -333_333, 1);
    assert_eq!(ball.x, 166);
    assert_eq!(ball.y, -167);
}
