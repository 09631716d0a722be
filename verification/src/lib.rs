//! Movement and collision rules for an actor that walks the deck of a tiled
//! vessel and can take the vessel's helm.
//!
//! Coordinates, speeds and velocities are whole pixels. Every type has a
//! mathematical view, and every operation states its effect on that view.

pub mod collision;
pub mod creature;
pub mod game;
pub mod grid;
pub mod input;
pub mod item;
pub mod misc;
pub mod motion;
pub mod ship;
pub mod tile;
