//! The basic values of the simulation: compass orientations and grid
//! positions.

use vstd::prelude::*;
use crate::errors::ParseError;
use crate::text;

verus! {

/// A compass direction the robot can face.
#[derive(Clone, Copy, Debug, PartialEq, Eq, Structural)]
pub enum Orientation {
    North,
    East,
    West,
    South,
}

impl Orientation {
    /// The orientation one quarter-turn to the left.
    pub open spec fn spec_left(self) -> Orientation {
        match self {
            Orientation::North => Orientation::West,
            Orientation::West => Orientation::South,
            Orientation::South => Orientation::East,
            Orientation::East => Orientation::North,
        }
    }

    /// The orientation one quarter-turn to the right.
    pub open spec fn spec_right(self) -> Orientation {
        match self {
            Orientation::North => Orientation::East,
            Orientation::East => Orientation::South,
            Orientation::South => Orientation::West,
            Orientation::West => Orientation::North,
        }
    }

    /// The upper-case name of the orientation.
    pub open spec fn spec_name(self) -> Seq<char> {
        match self {
            Orientation::North => "NORTH"@,
            Orientation::East => "EAST"@,
            Orientation::West => "WEST"@,
            Orientation::South => "SOUTH"@,
        }
    }

    /// How a piece of text reads as an orientation: upper-cased, it must
    /// match one of the four names exactly.
    pub open spec fn spec_parse(s: Seq<char>) -> Result<Orientation, ParseError> {
        let up = text::spec_upper_seq(s);
        if up == "NORTH"@ {
            Ok(Orientation::North)
        } else if up == "EAST"@ {
            Ok(Orientation::East)
        } else if up == "WEST"@ {
            Ok(Orientation::West)
        } else if up == "SOUTH"@ {
            Ok(Orientation::South)
        } else {
            Err(ParseError::UnknownOrientation)
        }
    }

    /// Reads an orientation name, case-insensitively.
    pub fn parse(plaintext: &str) -> (r: Result<Orientation, ParseError>)
        ensures
            r == Orientation::spec_parse(plaintext@),
    {
        let cs = text::chars_of(plaintext);
        Orientation::parse_chars(&cs)
    }

    /// Reads an orientation name from a vector of characters.
    pub fn parse_chars(v: &Vec<char>) -> (r: Result<Orientation, ParseError>)
        ensures
            r == Orientation::spec_parse(v@),
    {
        let up = text::upper_chars(v);
        if text::eq_str(&up, "NORTH") {
            Ok(Orientation::North)
        } else if text::eq_str(&up, "EAST") {
            Ok(Orientation::East)
        } else if text::eq_str(&up, "WEST") {
            Ok(Orientation::West)
        } else if text::eq_str(&up, "SOUTH") {
            Ok(Orientation::South)
        } else {
            Err(ParseError::UnknownOrientation)
        }
    }

    /// Turns one quarter-turn to the left.
    pub fn rotate_left(self) -> (r: Orientation)
        ensures
            r == self.spec_left(),
    {
        match self {
            Orientation::North => Orientation::West,
            Orientation::West => Orientation::South,
            Orientation::South => Orientation::East,
            Orientation::East => Orientation::North,
        }
    }

    /// Turns one quarter-turn to the right.
    pub fn rotate_right(self) -> (r: Orientation)
        ensures
            r == self.spec_right(),
    {
        match self {
            Orientation::North => Orientation::East,
            Orientation::East => Orientation::South,
            Orientation::South => Orientation::West,
            Orientation::West => Orientation::North,
        }
    }

    /// The upper-case name of the orientation, as text.
    pub fn name_str(self) -> (r: &'static str)
        ensures
            r@ == self.spec_name(),
    {
        match self {
            Orientation::North => "NORTH",
            Orientation::East => "EAST",
            Orientation::West => "WEST",
            Orientation::South => "SOUTH",
        }
    }
}

/// Four quarter-turns in the same direction, left or right, return any
/// orientation to itself.
pub proof fn lemma_rotate_four_times_identity(o: Orientation)
    ensures
        o.spec_left().spec_left().spec_left().spec_left() == o,
        o.spec_right().spec_right().spec_right().spec_right() == o,
{
}

/// A square of the grid, named by its column `x` and row `y`.
#[derive(Clone, Copy, Debug, PartialEq, Eq, Structural)]
pub struct Position {
    pub x: i32,
    pub y: i32,
}

} // verus!
