//! A minimal real-time lane-avoidance driving simulation.
//!
//! A player-controlled vehicle moves inside a bounded lane corridor while
//! traffic cars scroll toward it; contact ends the session.  The crate holds
//! the per-frame simulation core: input resolution, constrained movement,
//! obstacle recycling, collision detection and the game-state machine.
//! Rendering and event polling are left to the caller, which feeds discrete
//! input events in and takes a list of rectangles to draw out.

pub mod boundary;
pub mod geometry;
pub mod input;
pub mod player;
pub mod rng;
pub mod sim;
pub mod traffic;
