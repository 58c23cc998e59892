//! A small arcade simulation: a ship dodges and shoots falling obstacles.
//!
//! The library is the per-tick simulation core: entity movement, stochastic
//! obstacle spawning, proximity collision detection, scoring, and the
//! playing/game-over lifecycle. Rendering and input sampling are left to the
//! host program, which hands the tick a plain `Input` and reads the state
//! back for drawing.
//!
//! All coordinates and velocities are fixed-point integers in tenths of a
//! play-field unit, so `22.0` units is the value `220` and the `800 x 800`
//! play field spans `8000 x 8000`.

pub mod collision;
pub mod entities;
pub mod game;
pub mod geometry;
pub mod laws;
pub mod spawner;
