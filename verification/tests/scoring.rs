//! Goal detection, the score counters and the displayed numerals.

use pong_core::config::HALF_PI;
use pong_core::digits::u64_to_decimal;
use pong_core::state::{spawn_ball, spawn_scoreboard, Ball, Scoreboard};
use pong_core::systems::score_goal;

#[test]
fn spawn_scoreboard_reads_nil_nil() {
    let scoreboard = spawn_scoreboard();
    assert_eq!(scoreboard.player_scores, [0, 0]);
    assert_eq!(scoreboard.display[0], "0");
    assert_eq!(scoreboard.display[1], "0");
}

#[test]
fn left_goal_awards_player_two_and_resets_the_ball() {
    let mut ball = Ball { x: -640_000, y: 123_456, direction: 1_700_000, moving: true };
    let mut scoreboard = spawn_scoreboard();
    score_goal(&mut ball, &mut scoreboard);
    assert_eq!(ball.x, 0);
    assert_eq!(ball.y, 0);
    assert_eq!(ball.direction, HALF_PI);
    assert!(!ball.moving);
    assert_eq!(scoreboard.player_scores, [0, 1]);
    assert_eq!(scoreboard.display[0], "0");
    assert_eq!(scoreboard.display[1], "1");
}

#[test]
fn right_goal_awards_player_one_and_serves_the_other_way() {
    let mut ball = Ball { x: 650_000, y: -9_000, direction: 300_000, moving: true };
    let mut scoreboard = spawn_scoreboard();
    score_goal(&mut ball, &mut scoreboard);
    assert_eq!(ball.x, 0);
    assert_eq!(ball.y, 0);
    assert_eq!(ball.direction, -HALF_PI);
    assert!(!ball.moving);
    assert_eq!(scoreboard.player_scores, [1, 0]);
    assert_eq!(scoreboard.display[0], "1");
    assert_eq!(scoreboard.display[1], "0");
}

#[test]
fn no_goal_changes_nothing() {
    let mut ball = Ball { x: -639_999, y: 5_000, direction: 1_500_000, moving: true };
    let mut scoreboard = spawn_scoreboard();
    score_goal(&mut ball, &mut scoreboard);
    assert_eq!(ball.x, -639_999);
    assert!(ball.moving);
    assert_eq!(scoreboard.player_scores, [0, 0]);
    assert_eq!(scoreboard.display[0], "0");
    assert_eq!(scoreboard.display[1], "0");
}

#[test]
fn two_left_goals_and_one_right_show_two_one() {
    let mut ball = spawn_ball();
    let mut scoreboard = spawn_scoreboard();
    ball.x = -640_000;
    score_goal(&mut ball, &mut scoreboard);
    ball.x = -640_000;
    score_goal(&mut ball, &mut scoreboard);
    ball.x = 640_000;
    score_goal(&mut ball, &mut scoreboard);
    assert_eq!(scoreboard.player_scores, [1, 2]);
    // Player one's slot shows 1, player two's shows 2.
    assert_eq!(scoreboard.display[0], "1");
    assert_eq!(scoreboard.display[1], "2");
    // The last goal was on the right, so the serve heads toward player one.
    assert_eq!(ball.direction, -HALF_PI);
}

#[test]
fn goals_keep_numerals_in_step_with_large_counters() {
    let mut ball = Ball { x: -640_000, y: 0, direction: HALF_PI, moving: true };
    let mut scoreboard = Scoreboard {
        player_scores: [99, 254],
        display: [String::from("99"), String::from("254")],
    };
    score_goal(&mut ball, &mut scoreboard);
    assert_eq!(scoreboard.player_scores, [99, 255]);
    assert_eq!(scoreboard.display[0], "99");
    assert_eq!(scoreboard.display[1], "255");
}

#[test]
fn the_score_accumulates_past_a_byte() {
    // The match never ends: a 256th goal for one player simply counts on.
    let mut ball = Ball { x: -640_000, y: 0, direction: HALF_PI, moving: true };
    let mut scoreboard = Scoreboard {
        player_scores: [3, 255],
        display: [String::from("3"), String::from("255")],
    };
    score_goal(&mut ball, &mut scoreboard);
    assert_eq!(scoreboard.player_scores, [3, 256]);
    assert_eq!(scoreboard.display[0], "3");
    assert_eq!(scoreboard.display[1], "256");
}

#[test]
fn numerals_spell_counters_in_decimal() {
    assert_eq!(u64_to_decimal(0), "0");
    assert_eq!(u64_to_decimal(7), "7");
    assert_eq!(u64_to_decimal(10), "10");
    assert_eq!(u64_to_decimal(42), "42");
    assert_eq!(u64_to_decimal(99), "99");
    assert_eq!(u64_to_decimal(100), "100");
    assert_eq!(u64_to_decimal(207), "207");
    assert_eq!(u64_to_decimal(255), "255");
    assert_eq!(u64_to_decimal(1_000), "1000");
    assert_eq!(u64_to_decimal(65_536), "65536");
    assert_eq!(u64_to_decimal(4_294_967_296), "4294967296");
    assert_eq!(u64_to_decimal(u64::MAX), "18446744073709551615");
}
