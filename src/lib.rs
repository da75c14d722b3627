//! Entity core of a small arcade shooter: a craft that gathers forces,
//! integrates its motion inside the play field and fires projectiles.
//!
//! The library holds the state and the rules and says what to draw; the
//! host reads the canvas size, replays the draw commands and logs.

pub mod bullet;
pub mod draw;
pub mod spaceship;
pub mod vec2;
