//! Verified core of a grid-based snake game.
//!
//! A player-controlled head moves on a fixed square grid, grows by eating
//! food, and the game ends on self-collision or wall-collision.  This crate
//! holds the simulation alone: discrete-time movement, collision detection,
//! growth, food placement, score keeping, and the Playing / Paused / GameOver
//! state machine.  Rendering, input-device polling and window management are a
//! presentation layer that reads the simulation state and feeds it input
//! events; they live outside this crate.

pub mod direction;
pub mod food;
pub mod game;
pub mod grid;
pub mod laws;
pub mod rules;
pub mod snake;
pub mod timer;
