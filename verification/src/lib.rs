//! A snake game on a fixed grid, as a deterministic state machine.
//!
//! The snake advances one cell per movement tick, grows when its head lands on
//! food, and the round restarts when the head leaves the arena or runs into
//! the snake's own body. Every step is an executable function whose contract
//! is stated over a mathematical model of the round.
//!
//! Presentation (windows, sprites, key polling) is not part of this crate: a
//! front end hands in a snapshot of the held keys and the elapsed time, and
//! reads the settled state back.

pub mod clock;
pub mod direction;
pub mod game;
pub mod grid;
pub mod laws;
pub mod model;
pub mod render;
pub mod rng;
pub mod session;
