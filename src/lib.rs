//! Rules of a falling-block game played with physics: pieces of four pinned square bodies
//! drop onto a floor, come to rest, and full rows of resting blocks are cleared.
//!
//! The physics engine owns motion; this crate keeps a registry of the world's blocks as the
//! engine reports them, and decides what to spawn, pin, release, clear and count lost.
//! Positions are fixed-point, `board::UNITS_PER_BLOCK` units to a block.

pub mod board;
pub mod catalog;
pub mod game;
pub mod lifecycle;
pub mod movement;
pub mod offboard;
pub mod rows;
pub mod stats;
