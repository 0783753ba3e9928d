//! A coarse command screen kept beside the full core: it classifies a line
//! by its leading keyword alone, without reading any arguments, and carries
//! nothing out itself. The full parser and state machine live in
//! `instruction` and `robot`.

use vstd::prelude::*;
use crate::text;

verus! {

/// A command recognised by its keyword only. Unlike the full
/// `Instruction`, a screened `Place` carries no parsed coordinates: the
/// screen never reads arguments, so both stay zero.
#[derive(Clone, Copy, Debug, PartialEq, Eq, Structural)]
pub enum EngineCommand {
    /// A `PLACE` line; the coordinates are not read by the screen.
    Place { x: u32, y: u32 },
    /// A `MOVE` line.
    Move,
    /// A `LEFT` line.
    Left,
    /// A `RIGHT` line.
    Right,
    /// A `REPORT` line.
    Report,
}

impl EngineCommand {
    /// How the screen reads a line: the first whitespace-separated token,
    /// matched exactly — upper-case keywords only. A blank line, or any
    /// other leading token, screens to nothing.
    pub open spec fn spec_parse(s: Seq<char>) -> Option<EngineCommand> {
        let toks = text::spec_tokens(s);
        if toks.len() == 0 {
            None
        } else if toks[0] == "PLACE"@ {
            Some(EngineCommand::Place { x: 0, y: 0 })
        } else if toks[0] == "MOVE"@ {
            Some(EngineCommand::Move)
        } else if toks[0] == "LEFT"@ {
            Some(EngineCommand::Left)
        } else if toks[0] == "RIGHT"@ {
            Some(EngineCommand::Right)
        } else if toks[0] == "REPORT"@ {
            Some(EngineCommand::Report)
        } else {
            None
        }
    }

    /// Screens one line by its leading keyword.
    pub fn parse(plaintext: &str) -> (r: Option<EngineCommand>)
        ensures
            r == EngineCommand::spec_parse(plaintext@),
    {
        let cs = text::chars_of(plaintext);
        let toks = text::tokenize(&cs);
        if toks.len() == 0 {
            return None;
        }
        proof {
            assert(toks.deep_view()[0] =~= toks@[0]@);
        }
        if text::eq_str(&toks[0], "PLACE") {
            Some(EngineCommand::Place { x: 0, y: 0 })
        } else if text::eq_str(&toks[0], "MOVE") {
            Some(EngineCommand::Move)
        } else if text::eq_str(&toks[0], "LEFT") {
            Some(EngineCommand::Left)
        } else if text::eq_str(&toks[0], "RIGHT") {
            Some(EngineCommand::Right)
        } else if text::eq_str(&toks[0], "REPORT") {
            Some(EngineCommand::Report)
        } else {
            None
        }
    }

    /// The screen carries nothing out: execution belongs to the full core,
    /// so this always answers nothing.
    pub fn execute(&self, tabletop: &Tabletop) -> (r: Option<&str>)
        ensures
            r is None,
    {
        let _ = tabletop;
        None
    }
}

/// The screen's own minimal tabletop: dimensions only, taken as given.
#[derive(Clone, Copy, Debug, PartialEq, Eq, Structural)]
pub struct Tabletop {
    width: u32,
    height: u32,
}

impl Tabletop {
    /// The screen tabletop's width.
    pub closed spec fn spec_width(self) -> u32 {
        self.width
    }

    /// The screen tabletop's height.
    pub closed spec fn spec_height(self) -> u32 {
        self.height
    }

    /// Builds a screen tabletop with the given dimensions, unchecked.
    pub fn new(width: u32, height: u32) -> (r: Self)
        ensures
            r.spec_width() == width,
            r.spec_height() == height,
    {
        Tabletop { width, height }
    }

    /// Screens one line against this tabletop; the tabletop itself plays no
    /// part in the answer.
    pub fn evaluate_command(&self, plaintext_command: &str) -> (r: Option<EngineCommand>)
        ensures
            r == EngineCommand::spec_parse(plaintext_command@),
    {
        EngineCommand::parse(plaintext_command)
    }

    /// The screen tabletop's width.
    pub fn width(&self) -> (r: u32)
        ensures
            r == self.spec_width(),
    {
        self.width
    }

    /// The screen tabletop's height.
    pub fn height(&self) -> (r: u32)
        ensures
            r == self.spec_height(),
    {
        self.height
    }
}

} // verus!
