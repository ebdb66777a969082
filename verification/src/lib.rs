//! The rules of a small pointer game, kept apart from the engine that draws it.
//!
//! A player stands in a scene and turns to face the cursor. A click moves the
//! player to the clicked point and scores one. A label shows the score.
//!
//! The engine reads the input, maps window points to scene points through its
//! camera and does the floating-point geometry. What it finds it hands to the
//! updates of [`systems`], once per frame and in their fixed order; they decide
//! what becomes of the [`game::Game`].

pub mod geometry;
pub mod game;
pub mod input;
pub mod systems;
pub mod decimal;
pub mod label;
pub mod frame;
