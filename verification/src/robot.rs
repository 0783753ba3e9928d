//! The robot: a state machine over a private snapshot of one tabletop.
//!
//! A robot starts unplaced and becomes placed only through a successful
//! `PLACE`. Every state-changing command first asks the tabletop a pure
//! question and commits the new state only on an affirmative answer; on any
//! rejection the robot is left exactly as it was and a structured error is
//! surfaced.
//!
//! The robot copies the tabletop at creation, so obstacles added to the
//! original afterwards are invisible to it: a deliberate consistency
//! boundary, not an oversight. `REPORT` while unplaced is an error
//! (`NotPlaced`), the same strict policy as for motion and rotation.

use vstd::prelude::*;
use vstd::string::StringExecFns;
use crate::common::{Orientation, Position};
use crate::errors::{ConfigError, RobotError};
use crate::instruction::Instruction;
use crate::tabletop::Tabletop;
use crate::text;

verus! {

/// The robot's placement, one tagged value: either nothing at all or a
/// position together with an orientation, so a half-initialised placement
/// cannot be represented.
#[derive(Clone, Copy, Debug, PartialEq, Eq, Structural)]
pub enum Placement {
    /// Not yet on the tabletop.
    Unplaced,
    /// On the tabletop at `position`, facing `orientation`.
    Placed { position: Position, orientation: Orientation },
}

/// A robot bound to its own copy of a tabletop. While placed, its position
/// always lies on that tabletop; that holds for every value of the type.
pub struct Robot {
    tabletop: Tabletop,
    state: Placement,
}

/// The square one step ahead of `p` in direction `o`: north is `y + 1`,
/// south `y - 1`, east `x + 1`, west `x - 1`.
pub open spec fn spec_target(p: Position, o: Orientation) -> Position {
    match o {
        Orientation::North => Position { x: p.x, y: (p.y + 1) as i32 },
        Orientation::South => Position { x: p.x, y: (p.y - 1) as i32 },
        Orientation::East => Position { x: (p.x + 1) as i32, y: p.y },
        Orientation::West => Position { x: (p.x - 1) as i32, y: p.y },
    }
}

/// Placing on tabletop `t`: allowed whatever the current state is, but only
/// onto a square the tabletop accepts; otherwise the state is kept and the
/// rejection surfaced.
pub open spec fn spec_place_step(t: Tabletop, p: Position, o: Orientation, s: Placement) -> (
    Placement,
    Result<(), RobotError>,
) {
    match t.spec_request_place(p) {
        Ok(()) => (Placement::Placed { position: p, orientation: o }, Ok(())),
        Err(e) => (s, Err(RobotError::PlacementRejected(e))),
    }
}

/// Moving one square forward: refused while unplaced; otherwise the target
/// square is taken exactly when the tabletop accepts it.
pub open spec fn spec_move_step(t: Tabletop, s: Placement) -> (Placement, Result<(), RobotError>) {
    match s {
        Placement::Unplaced => (s, Err(RobotError::NotPlaced)),
        Placement::Placed { position, orientation } => {
            let target = spec_target(position, orientation);
            match t.spec_request_place(target) {
                Ok(()) => (Placement::Placed { position: target, orientation }, Ok(())),
                Err(e) => (s, Err(RobotError::PlacementRejected(e))),
            }
        },
    }
}

/// Turning left: refused while unplaced, otherwise always taken.
pub open spec fn spec_turn_left_step(s: Placement) -> (Placement, Result<(), RobotError>) {
    match s {
        Placement::Unplaced => (s, Err(RobotError::NotPlaced)),
        Placement::Placed { position, orientation } => (
            Placement::Placed { position, orientation: orientation.spec_left() },
            Ok(()),
        ),
    }
}

/// Turning right: refused while unplaced, otherwise always taken.
pub open spec fn spec_turn_right_step(s: Placement) -> (Placement, Result<(), RobotError>) {
    match s {
        Placement::Unplaced => (s, Err(RobotError::NotPlaced)),
        Placement::Placed { position, orientation } => (
            Placement::Placed { position, orientation: orientation.spec_right() },
            Ok(()),
        ),
    }
}

/// The status text of a placed robot: `<x>,<y>,<ORIENTATION>`, decimal
/// integers without leading zeros, the orientation name upper-case.
pub open spec fn spec_report_seq(p: Position, o: Orientation) -> Seq<char> {
    text::spec_dec_i32(p.x as int) + ","@ + text::spec_dec_i32(p.y as int) + ","@ + o.spec_name()
}

/// Reporting: the status text while placed, `NotPlaced` otherwise. The
/// state never changes.
pub open spec fn spec_report_result(s: Placement) -> Result<Seq<char>, RobotError> {
    match s {
        Placement::Unplaced => Err(RobotError::NotPlaced),
        Placement::Placed { position, orientation } => Ok(spec_report_seq(position, orientation)),
    }
}

/// One instruction applied to state `s` over tabletop `t`: the next state
/// and the outcome, where a successful `Report` carries the status text and
/// every other success carries nothing.
pub open spec fn spec_step(t: Tabletop, s: Placement, instr: Instruction) -> (
    Placement,
    Result<Option<Seq<char>>, RobotError>,
) {
    match instr {
        Instruction::Place { x, y, orientation } => {
            let (s2, res) = spec_place_step(t, Position { x, y }, orientation, s);
            (s2, spec_void_outcome(res))
        },
        Instruction::Move => {
            let (s2, res) = spec_move_step(t, s);
            (s2, spec_void_outcome(res))
        },
        Instruction::Left => {
            let (s2, res) = spec_turn_left_step(s);
            (s2, spec_void_outcome(res))
        },
        Instruction::Right => {
            let (s2, res) = spec_turn_right_step(s);
            (s2, spec_void_outcome(res))
        },
        Instruction::Report => (
            s,
            match spec_report_result(s) {
                Ok(text) => Ok(Some(text)),
                Err(e) => Err(e),
            },
        ),
        Instruction::Obstacle { .. } => (s, Err(RobotError::UnsupportedInContext)),
    }
}

/// A success without a report carries nothing.
pub open spec fn spec_void_outcome(res: Result<(), RobotError>) -> Result<
    Option<Seq<char>>,
    RobotError,
> {
    match res {
        Ok(()) => Ok(None),
        Err(e) => Err(e),
    }
}

/// Whether the outcome `r` of an evaluated command is the one the step
/// function `spec_step` names: the same success or the same error, a report
/// compared text for text.
pub open spec fn outcome_matches(
    r: Result<Option<String>, RobotError>,
    spec_res: Result<Option<Seq<char>>, RobotError>,
) -> bool {
    match (r, spec_res) {
        (Ok(a), Ok(b)) => match (a, b) {
            (None, None) => true,
            (Some(s), Some(t)) => s@ == t,
            _ => false,
        },
        (Err(e1), Err(e2)) => e1 == e2,
        _ => false,
    }
}

/// The status text of a placed robot, built as `<x>,<y>,<ORIENTATION>`.
fn report_string(p: Position, o: Orientation) -> (r: String)
    requires
        p.x >= 0,
        p.y >= 0,
    ensures
        r@ == spec_report_seq(p, o),
{
    let mut s = String::new();
    text::push_dec_u32(&mut s, p.x as u32);
    s.append(",");
    text::push_dec_u32(&mut s, p.y as u32);
    s.append(",");
    s.append(o.name_str());
    proof {
        assert(s@ =~= spec_report_seq(p, o));
    }
    s
}

impl Robot {
    /// Placed implies on the tabletop.
    #[verifier::type_invariant]
    spec fn wf(self) -> bool {
        match self.state {
            Placement::Unplaced => true,
            Placement::Placed { position, .. } => self.tabletop.spec_in_bounds(position),
        }
    }

    /// The robot's own copy of the tabletop.
    pub closed spec fn spec_tabletop(self) -> Tabletop {
        self.tabletop
    }

    /// The robot's placement state.
    pub closed spec fn spec_state(self) -> Placement {
        self.state
    }

    /// Whether the robot stands on the tabletop.
    pub open spec fn spec_is_placed(self) -> bool {
        self.spec_state() is Placed
    }

    /// Creates a robot registered to — not placed on — a tabletop. The
    /// robot starts unplaced and keeps its own copy of the tabletop as it
    /// is at this moment.
    pub fn create(tabletop: &Tabletop) -> (r: Result<Robot, ConfigError>)
        ensures
            r matches Ok(robot) && {
                &&& robot.spec_state() == Placement::Unplaced
                &&& robot.spec_tabletop().spec_width() == tabletop.spec_width()
                &&& robot.spec_tabletop().spec_height() == tabletop.spec_height()
                &&& robot.spec_tabletop().spec_obstacles() == tabletop.spec_obstacles()
            },
    {
        Ok(Robot { tabletop: tabletop.clone(), state: Placement::Unplaced })
    }

    /// Places the robot at `position` facing `orientation`, whatever its
    /// current state, if and only if the tabletop accepts the square.
    pub fn place_on_tabletop(&mut self, position: Position, orientation: Orientation) -> (r:
        Result<(), RobotError>)
        ensures
            final (self).spec_tabletop() == old(self).spec_tabletop(),
            ({
                let (s2, res) = spec_place_step(
                    old(self).spec_tabletop(),
                    position,
                    orientation,
                    old(self).spec_state(),
                );
                final (self).spec_state() == s2 && r == res
            }),
    {
        match self.tabletop.request_place(&position) {
            Ok(()) => {
                self.state = Placement::Placed { position, orientation };
                Ok(())
            },
            Err(e) => Err(RobotError::PlacementRejected(e)),
        }
    }

    /// Moves the robot one square forward in the direction it faces, if and
    /// only if it is placed and the tabletop accepts the target square.
    pub fn move_forward(&mut self) -> (r: Result<(), RobotError>)
        ensures
            final (self).spec_tabletop() == old(self).spec_tabletop(),
            ({
                let (s2, res) = spec_move_step(old(self).spec_tabletop(), old(self).spec_state());
                final (self).spec_state() == s2 && r == res
            }),
    {
        proof {
            use_type_invariant(&*self);
        }
        match self.state {
            Placement::Unplaced => Err(RobotError::NotPlaced),
            Placement::Placed { position, orientation } => {
                let target = match orientation {
                    Orientation::North => Position { x: position.x, y: position.y + 1 },
                    Orientation::South => Position { x: position.x, y: position.y - 1 },
                    Orientation::East => Position { x: position.x + 1, y: position.y },
                    Orientation::West => Position { x: position.x - 1, y: position.y },
                };
                match self.tabletop.request_place(&target) {
                    Ok(()) => {
                        self.state = Placement::Placed { position: target, orientation };
                        Ok(())
                    },
                    Err(e) => Err(RobotError::PlacementRejected(e)),
                }
            },
        }
    }

    /// Turns the robot a quarter-turn to the left; refused while unplaced.
    pub fn turn_left(&mut self) -> (r: Result<(), RobotError>)
        ensures
            final (self).spec_tabletop() == old(self).spec_tabletop(),
            ({
                let (s2, res) = spec_turn_left_step(old(self).spec_state());
                final (self).spec_state() == s2 && r == res
            }),
    {
        proof {
            use_type_invariant(&*self);
        }
        match self.state {
            Placement::Unplaced => Err(RobotError::NotPlaced),
            Placement::Placed { position, orientation } => {
                self.state = Placement::Placed { position, orientation: orientation.rotate_left() };
                Ok(())
            },
        }
    }

    /// Turns the robot a quarter-turn to the right; refused while unplaced.
    pub fn turn_right(&mut self) -> (r: Result<(), RobotError>)
        ensures
            final (self).spec_tabletop() == old(self).spec_tabletop(),
            ({
                let (s2, res) = spec_turn_right_step(old(self).spec_state());
                final (self).spec_state() == s2 && r == res
            }),
    {
        proof {
            use_type_invariant(&*self);
        }
        match self.state {
            Placement::Unplaced => Err(RobotError::NotPlaced),
            Placement::Placed { position, orientation } => {
                self.state = Placement::Placed {
                    position,
                    orientation: orientation.rotate_right(),
                };
                Ok(())
            },
        }
    }

    /// The robot's status as `<x>,<y>,<ORIENTATION>`; refused while
    /// unplaced. A query only; the robot never changes.
    pub fn report(&self) -> (r: Result<String, RobotError>)
        ensures
            match self.spec_state() {
                Placement::Unplaced => r matches Err(e) && e == RobotError::NotPlaced,
                Placement::Placed { position, orientation } => r matches Ok(s) && s@
                    == spec_report_seq(position, orientation),
            },
    {
        proof {
            use_type_invariant(&*self);
        }
        match self.state {
            Placement::Unplaced => Err(RobotError::NotPlaced),
            Placement::Placed { position, orientation } => Ok(report_string(position, orientation)),
        }
    }

    /// Parses one line of text and carries the instruction out: the robot
    /// steps exactly as `spec_step` says, and on a parse error it is left
    /// untouched with the error surfaced.
    pub fn evaluate_command(&mut self, command: &str) -> (r: Result<Option<String>, RobotError>)
        ensures
            match Instruction::spec_parse(command@) {
                Err(e) => *final (self) == *old(self) && r == Err::<Option<String>, RobotError>(
                    RobotError::Parse(e),
                ),
                Ok(instr) => {
                    let (s2, res) = spec_step(
                        old(self).spec_tabletop(),
                        old(self).spec_state(),
                        instr,
                    );
                    &&& final (self).spec_tabletop() == old(self).spec_tabletop()
                    &&& final (self).spec_state() == s2
                    &&& outcome_matches(r, res)
                },
            },
    {
        let instruction = match Instruction::parse(command) {
            Ok(instruction) => instruction,
            Err(e) => {
                return Err(RobotError::Parse(e));
            },
        };
        match instruction {
            Instruction::Place { x, y, orientation } => {
                match self.place_on_tabletop(Position { x, y }, orientation) {
                    Ok(()) => Ok(None),
                    Err(e) => Err(e),
                }
            },
            Instruction::Move => match self.move_forward() {
                Ok(()) => Ok(None),
                Err(e) => Err(e),
            },
            Instruction::Left => match self.turn_left() {
                Ok(()) => Ok(None),
                Err(e) => Err(e),
            },
            Instruction::Right => match self.turn_right() {
                Ok(()) => Ok(None),
                Err(e) => Err(e),
            },
            Instruction::Report => match self.report() {
                Ok(s) => Ok(Some(s)),
                Err(e) => Err(e),
            },
            Instruction::Obstacle { .. } => Err(RobotError::UnsupportedInContext),
        }
    }

    /// Whether the robot has been placed on its tabletop.
    pub fn is_placed(&self) -> (r: bool)
        ensures
            r == self.spec_is_placed(),
    {
        match self.state {
            Placement::Unplaced => false,
            Placement::Placed { .. } => true,
        }
    }

    /// The robot's position, while placed.
    pub fn position(&self) -> (r: Option<Position>)
        ensures
            match self.spec_state() {
                Placement::Unplaced => r is None,
                Placement::Placed { position, .. } => r == Some(position),
            },
    {
        match self.state {
            Placement::Unplaced => None,
            Placement::Placed { position, .. } => Some(position),
        }
    }

    /// The robot's orientation, while placed.
    pub fn orientation(&self) -> (r: Option<Orientation>)
        ensures
            match self.spec_state() {
                Placement::Unplaced => r is None,
                Placement::Placed { orientation, .. } => r == Some(orientation),
            },
    {
        match self.state {
            Placement::Unplaced => None,
            Placement::Placed { orientation, .. } => Some(orientation),
        }
    }

    /// The robot's own copy of the tabletop.
    pub fn tabletop(&self) -> (r: &Tabletop)
        ensures
            *r == self.spec_tabletop(),
    {
        &self.tabletop
    }
}

/// A robot that is not placed answers `Move`, `Left`, `Right` and `Report`
/// with `NotPlaced`, and its state is left unchanged.
pub proof fn lemma_unplaced_commands_rejected(r: Robot)
    requires
        r.spec_state() is Unplaced,
    ensures
        spec_step(r.spec_tabletop(), r.spec_state(), Instruction::Move) == (
            r.spec_state(),
            Err::<Option<Seq<char>>, RobotError>(RobotError::NotPlaced),
        ),
        spec_step(r.spec_tabletop(), r.spec_state(), Instruction::Left) == (
            r.spec_state(),
            Err::<Option<Seq<char>>, RobotError>(RobotError::NotPlaced),
        ),
        spec_step(r.spec_tabletop(), r.spec_state(), Instruction::Right) == (
            r.spec_state(),
            Err::<Option<Seq<char>>, RobotError>(RobotError::NotPlaced),
        ),
        spec_step(r.spec_tabletop(), r.spec_state(), Instruction::Report) == (
            r.spec_state(),
            Err::<Option<Seq<char>>, RobotError>(RobotError::NotPlaced),
        ),
{
}

} // verus!
