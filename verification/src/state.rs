//! The game's entities, modelled as plain owned values: two rackets, one
//! ball, one scoreboard. The host keeps exactly one of each (two rackets)
//! and passes them by reference into the per-frame update functions.

use vstd::prelude::*;
use vstd::string::StringExecFns;

use crate::config::{HALF_PI, HALF_WINDOW_WIDTH, RACKET_EDGE_OFFSET};
use crate::digits::{dec_str, digit_char};

verus! {

/// The side of the playfield a racket belongs to and scores for.
#[derive(Clone, Copy, PartialEq, Eq, Structural, Debug)]
pub enum Player {
    /// The left racket's owner; scores when the ball leaves on the right.
    One,
    /// The right racket's owner; scores when the ball leaves on the left.
    Two,
}

/// A racket: its owner and the position of its centre, in milli-pixels.
/// Only `y` ever changes; the host moves it with the owner's key pair.
#[derive(Clone, Copy, PartialEq, Eq, Structural, Debug)]
pub struct Racket {
    pub player: Player,
    pub x: i64,
    pub y: i64,
}

/// The ball: centre position in milli-pixels, direction angle in units of
/// pi * 10^-6 radians (0 is straight up, growing clockwise), and whether it
/// has been served.
#[derive(Clone, Copy, PartialEq, Eq, Structural, Debug)]
pub struct Ball {
    pub x: i64,
    pub y: i64,
    pub direction: i64,
    pub moving: bool,
}

/// The score counters, one per player, with the decimal numerals shown for
/// them; the numerals always spell the counters out (see [`Scoreboard::wf`]).
/// The score accumulates without bound and the match never ends, so the
/// counters are wide enough that no session can fill them.
pub struct Scoreboard {
    pub player_scores: [u64; 2],
    pub display: [String; 2],
}

impl Scoreboard {
    /// The displayed numerals match the counters.
    pub open spec fn wf(self) -> bool {
        &&& self.display[0]@ == dec_str(self.player_scores[0] as nat)
        &&& self.display[1]@ == dec_str(self.player_scores[1] as nat)
    }
}

/// The two rackets at the start of a session: player one's on the left,
/// player two's on the right, each a fixed offset in from its wall and
/// vertically centred.
pub fn spawn_rackets() -> (rackets: (Racket, Racket))
    ensures
        rackets.0.player == Player::One,
        rackets.0.x == -HALF_WINDOW_WIDTH + RACKET_EDGE_OFFSET,
        rackets.0.y == 0,
        rackets.1.player == Player::Two,
        rackets.1.x == HALF_WINDOW_WIDTH - RACKET_EDGE_OFFSET,
        rackets.1.y == 0,
{
    let left = Racket { player: Player::One, x: -HALF_WINDOW_WIDTH + RACKET_EDGE_OFFSET, y: 0 };
    let right = Racket { player: Player::Two, x: HALF_WINDOW_WIDTH - RACKET_EDGE_OFFSET, y: 0 };
    (left, right)
}

/// The ball at the start of a session: centred, aimed at a quarter turn
/// (toward player two's side), waiting to be served.
pub fn spawn_ball() -> (ball: Ball)
    ensures
        ball == (Ball { x: 0, y: 0, direction: HALF_PI, moving: false }),
{
    Ball { x: 0, y: 0, direction: HALF_PI, moving: false }
}

/// The scoreboard at the start of a session: both counters at zero, both
/// numerals reading "0".
pub fn spawn_scoreboard() -> (scoreboard: Scoreboard)
    ensures
        scoreboard.player_scores[0] == 0,
        scoreboard.player_scores[1] == 0,
        scoreboard.wf(),
{
    let zero_left = String::from_str("0");
    let zero_right = String::from_str("0");
    proof {
        reveal_strlit("0");
        assert("0"@ =~= seq![digit_char(0)]);
    }
    Scoreboard { player_scores: [0, 0], display: [zero_left, zero_right] }
}

} // verus!
