//! Parsing one line of text into a structured instruction.
//!
//! A line is split on whitespace; the first token names the command,
//! case-insensitively. For `PLACE` and `OBSTACLE` the remaining tokens are
//! joined, split on commas, and each field trimmed; the minimum number of
//! fields is checked and any extra fields are deliberately ignored. The
//! zero-argument commands ignore trailing tokens altogether.

use vstd::prelude::*;
use crate::common::Orientation;
use crate::errors::ParseError;
use crate::text;

verus! {

/// A parsed, validated command, ready for execution. Once constructed, the
/// fields need no further parsing downstream.
#[derive(Clone, Copy, Debug, PartialEq, Eq, Structural)]
pub enum Instruction {
    /// Put the robot at `(x, y)`, facing `orientation`.
    Place { x: i32, y: i32, orientation: Orientation },
    /// Declare a static obstacle at `(x, y)`.
    Obstacle { x: i32, y: i32 },
    /// Turn the robot a quarter-turn to the left.
    Left,
    /// Turn the robot a quarter-turn to the right.
    Right,
    /// Move the robot one square forward.
    Move,
    /// Ask the robot for its status.
    Report,
}

/// All the sequences of `ss` joined, in order, with nothing between them.
pub open spec fn spec_concat(ss: Seq<Seq<char>>) -> Seq<char>
    decreases ss.len(),
{
    if ss.len() == 0 {
        Seq::empty()
    } else {
        ss[0] + spec_concat(ss.drop_first())
    }
}

/// The argument fields of a command: every token after the keyword joined,
/// then split on commas. Fields are trimmed where they are read.
pub open spec fn spec_arg_fields(toks: Seq<Seq<char>>) -> Seq<Seq<char>> {
    text::spec_fields(spec_concat(toks.drop_first()))
}

impl Instruction {
    /// How one line of text reads as an instruction. The line is upper-cased
    /// and split on whitespace; the first token picks the command. `PLACE`
    /// needs three comma-separated fields (two integers and an orientation),
    /// `OBSTACLE` two (two integers); extra fields and trailing tokens are
    /// ignored, never rejected.
    pub open spec fn spec_parse(s: Seq<char>) -> Result<Instruction, ParseError> {
        let toks = text::spec_tokens(text::spec_upper_seq(s));
        if toks.len() == 0 {
            Err(ParseError::MalformedCommand)
        } else if toks[0] == "PLACE"@ && toks.len() >= 2 {
            let fields = spec_arg_fields(toks);
            if fields.len() < 3 {
                Err(ParseError::IncompleteArguments)
            } else {
                let fx = text::spec_trim(fields[0]);
                let fy = text::spec_trim(fields[1]);
                let fo = text::spec_trim(fields[2]);
                if text::spec_valid_i32(fx) && text::spec_valid_i32(fy)
                    && Orientation::spec_parse(fo) is Ok {
                    Ok(
                        Instruction::Place {
                            x: text::spec_i32_val(fx) as i32,
                            y: text::spec_i32_val(fy) as i32,
                            orientation: Orientation::spec_parse(fo)->Ok_0,
                        },
                    )
                } else {
                    Err(ParseError::InvalidArguments)
                }
            }
        } else if toks[0] == "OBSTACLE"@ && toks.len() >= 2 {
            let fields = spec_arg_fields(toks);
            if fields.len() < 2 {
                Err(ParseError::IncompleteArguments)
            } else {
                let fx = text::spec_trim(fields[0]);
                let fy = text::spec_trim(fields[1]);
                if text::spec_valid_i32(fx) && text::spec_valid_i32(fy) {
                    Ok(
                        Instruction::Obstacle {
                            x: text::spec_i32_val(fx) as i32,
                            y: text::spec_i32_val(fy) as i32,
                        },
                    )
                } else {
                    Err(ParseError::InvalidArguments)
                }
            }
        } else if toks[0] == "MOVE"@ {
            Ok(Instruction::Move)
        } else if toks[0] == "LEFT"@ {
            Ok(Instruction::Left)
        } else if toks[0] == "RIGHT"@ {
            Ok(Instruction::Right)
        } else if toks[0] == "REPORT"@ {
            Ok(Instruction::Report)
        } else {
            Err(ParseError::UnrecognizedCommand)
        }
    }

    /// Translates a plaintext command to an `Instruction`.
    pub fn parse(plaintext: &str) -> (r: Result<Instruction, ParseError>)
        ensures
            r == Instruction::spec_parse(plaintext@),
    {
        let cs = text::chars_of(plaintext);
        let up = text::upper_chars(&cs);
        let toks = text::tokenize(&up);
        let ghost dv = toks.deep_view();
        if toks.len() == 0 {
            return Err(ParseError::MalformedCommand);
        }
        proof {
            assert(dv[0] =~= toks@[0]@);
        }
        if text::eq_str(&toks[0], "PLACE") && toks.len() >= 2 {
            let fields = arg_fields(&toks);
            let ghost fdv = fields.deep_view();
            if fields.len() < 3 {
                return Err(ParseError::IncompleteArguments);
            }
            proof {
                assert(fdv[0] =~= fields@[0]@);
                assert(fdv[1] =~= fields@[1]@);
                assert(fdv[2] =~= fields@[2]@);
            }
            let fx = text::trim_chars(&fields[0]);
            let fy = text::trim_chars(&fields[1]);
            let fo = text::trim_chars(&fields[2]);
            let rx = text::parse_i32_chars(&fx);
            let ry = text::parse_i32_chars(&fy);
            let ro = Orientation::parse_chars(&fo);
            if let (Some(x), Some(y), Ok(orientation)) = (rx, ry, ro) {
                Ok(Instruction::Place { x, y, orientation })
            } else {
                Err(ParseError::InvalidArguments)
            }
        } else if text::eq_str(&toks[0], "OBSTACLE") && toks.len() >= 2 {
            let fields = arg_fields(&toks);
            let ghost fdv = fields.deep_view();
            if fields.len() < 2 {
                return Err(ParseError::IncompleteArguments);
            }
            proof {
                assert(fdv[0] =~= fields@[0]@);
                assert(fdv[1] =~= fields@[1]@);
            }
            let fx = text::trim_chars(&fields[0]);
            let fy = text::trim_chars(&fields[1]);
            let rx = text::parse_i32_chars(&fx);
            let ry = text::parse_i32_chars(&fy);
            if let (Some(x), Some(y)) = (rx, ry) {
                Ok(Instruction::Obstacle { x, y })
            } else {
                Err(ParseError::InvalidArguments)
            }
        } else if text::eq_str(&toks[0], "MOVE") {
            Ok(Instruction::Move)
        } else if text::eq_str(&toks[0], "LEFT") {
            Ok(Instruction::Left)
        } else if text::eq_str(&toks[0], "RIGHT") {
            Ok(Instruction::Right)
        } else if text::eq_str(&toks[0], "REPORT") {
            Ok(Instruction::Report)
        } else {
            Err(ParseError::UnrecognizedCommand)
        }
    }
}

/// The argument fields of a tokenized command line: the tokens after the
/// first joined into one run of characters, then split on commas.
fn arg_fields(toks: &Vec<Vec<char>>) -> (r: Vec<Vec<char>>)
    requires
        toks@.len() >= 1,
    ensures
        r.deep_view() == spec_arg_fields(toks.deep_view()),
{
    let frag = concat_from(toks, 1);
    proof {
        assert(toks.deep_view().skip(1) =~~= toks.deep_view().drop_first());
    }
    text::split_fields(&frag)
}

/// The sequences of `toks` from index `from` on, joined in order.
fn concat_from(toks: &Vec<Vec<char>>, from: usize) -> (r: Vec<char>)
    requires
        from <= toks@.len(),
    ensures
        r@ == spec_concat(toks.deep_view().skip(from as int)),
{
    let ghost dv = toks.deep_view();
    let mut r: Vec<char> = Vec::new();
    let mut j: usize = from;
    proof {
        assert(spec_concat(dv.skip(from as int)) =~= r@ + spec_concat(dv.skip(from as int)));
    }
    while j < toks.len()
        invariant
            from <= j <= toks@.len(),
            dv == toks.deep_view(),
            spec_concat(dv.skip(from as int)) == r@ + spec_concat(dv.skip(j as int)),
        decreases toks@.len() - j,
    {
        let ghost r_start = r@;
        let t = &toks[j];
        proof {
            assert(dv[j as int] =~= t@);
        }
        let mut k: usize = 0;
        while k < t.len()
            invariant
                k <= t@.len(),
                r@ == r_start + t@.take(k as int),
            decreases t@.len() - k,
        {
            r.push(t[k]);
            k = k + 1;
            proof {
                assert(r@ =~= r_start + t@.take(k as int));
            }
        }
        proof {
            assert(t@.take(t@.len() as int) =~= t@);
            assert(dv.skip(j as int)[0] == dv[j as int]);
            assert(dv.skip(j as int).drop_first() =~= dv.skip(j as int + 1));
            assert(r_start + dv[j as int] =~= r@);
            assert((r_start + dv[j as int]) + spec_concat(dv.skip(j as int + 1)) =~= r@
                + spec_concat(dv.skip(j as int + 1)));
            assert(spec_concat(dv.skip(from as int)) =~= r@ + spec_concat(dv.skip(j as int + 1)));
        }
        j = j + 1;
    }
    proof {
        assert(dv.skip(toks@.len() as int) =~= Seq::<Seq<char>>::empty());
        assert(r@ + spec_concat(dv.skip(toks@.len() as int)) =~= r@);
    }
    r
}

} // verus!
