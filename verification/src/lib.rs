//! A reaction-timing lane game.
//!
//! Shapes scroll vertically down four lanes; the player presses the key
//! mapped to a lane when its moving shape lines up with the stationary
//! target outline, scoring points on good timing. This crate holds the
//! whole game logic: shape geometry, the per-lane scroll-and-pause motion
//! schedule, hit detection and scoring, the menu / play / win state
//! machine, and the fixed-interval tick scheduler. Rendering, input
//! delivery and the real-time clock live outside and talk to the library
//! through plain values.
//!
//! All coordinates and scores are exact fixed-point integers in
//! thousandths of a unit (`1_000` is one screen unit or one point), so
//! the motion law and the scoring rules are verified exactly.

pub mod geometry;
pub mod motion;
mod random;
pub mod scoring;
pub mod session;
pub mod timing;
