//! A verified core for a two-player Pong game.
//!
//! The library models the game's only algorithmic content: racket control,
//! ball reflection (walls and rackets, with scatter), ball motion, serving,
//! and goal detection with scoring. Rendering, windowing, input sampling and
//! the per-frame scheduler are the host's business; the host calls these
//! update functions once per frame, in the order racket control, reflection,
//! motion, then goal detection, handing them plain values (key states, the
//! frame's time delta, and the direction's sine and cosine).
//!
//! All quantities are exact fixed-point integers; the unit conventions are
//! documented in [`config`].

pub mod angle;
pub mod config;
pub mod digits;
pub mod laws;
pub mod state;
pub mod systems;
