//! The error taxonomy of the simulation core.
//!
//! Every failure is an ordinary value handed back to the caller; no operation
//! of the library panics. Each enum covers one concern: configuring a
//! tabletop, parsing a line of text, judging a position, and running the
//! robot's state machine.

use vstd::prelude::*;

verus! {

/// Why a line of text could not be turned into an instruction.
#[derive(Clone, Copy, Debug, PartialEq, Eq, Structural)]
pub enum ParseError {
    /// The line held no tokens at all.
    MalformedCommand,
    /// The leading keyword is not a known command, or a command that needs
    /// arguments came without any.
    UnrecognizedCommand,
    /// A command carried fewer comma-separated fields than it needs.
    IncompleteArguments,
    /// A field could not be read as an integer or as an orientation name.
    InvalidArguments,
    /// A piece of text is not one of the four orientation names.
    UnknownOrientation,
}

/// Why a tabletop could not be configured.
#[derive(Clone, Copy, Debug, PartialEq, Eq, Structural)]
pub enum ConfigError {
    /// A requested dimension was zero or negative.
    InvalidDimensions,
}

/// Why a position on a tabletop cannot be occupied.
#[derive(Clone, Copy, Debug, PartialEq, Eq, Structural)]
pub enum PlacementError {
    /// The position lies outside the tabletop's bounds.
    OutOfBounds,
    /// The position holds an obstacle.
    Blocked,
}

/// Why the robot rejected a command.
#[derive(Clone, Copy, Debug, PartialEq, Eq, Structural)]
pub enum RobotError {
    /// The command line could not be parsed.
    Parse(ParseError),
    /// The tabletop refused the requested placement or movement.
    PlacementRejected(PlacementError),
    /// A movement, rotation or report was asked of a robot that has not
    /// been placed yet.
    NotPlaced,
    /// The instruction is not the robot's to carry out.
    UnsupportedInContext,
}

} // verus!
