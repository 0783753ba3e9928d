//! A verified simulation core for a single robot on a bounded tabletop.
//!
//! The library parses one-line textual commands into structured instructions,
//! validates placement and movement against the tabletop's bounds and its
//! static obstacles, and drives the robot's state machine. Every public
//! operation carries a contract that pins its result down exactly, and the
//! whole crate is checked by Verus.

pub mod common;
pub mod engine;
pub mod errors;
pub mod instruction;
pub mod robot;
pub mod tabletop;
pub mod text;
