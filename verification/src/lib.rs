//! Core logic of a minimal two-screen demo: a title screen and a game screen
//! with one animated sprite and one clickable button.
//!
//! The library is the engine-independent part: easing curves, a frame-stepped
//! tween animator, axis-aligned rectangle geometry, and the per-frame screen
//! controller. Input polling, drawing and persistence belong to the
//! surrounding runtime; the controller consumes a plain input snapshot and
//! produces plain draw commands.

pub mod arith;
pub mod easing;
pub mod geometry;
pub mod state;
pub mod tween;
