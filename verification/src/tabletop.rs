//! The tabletop: a bounded grid plus its static obstacles.
//!
//! A tabletop answers one question — "may this square be occupied?" — and
//! never changes its dimensions after construction. Obstacles may be added
//! while they are in bounds; adding one that is already present changes
//! nothing.

use vstd::prelude::*;
use crate::common::Position;
use crate::errors::{ConfigError, PlacementError};

verus! {

/// The bounded grid and its static obstacle set. Dimensions are strictly
/// positive and every obstacle lies within them; both facts hold for every
/// value of the type.
#[derive(Debug)]
pub struct Tabletop {
    width: i32,
    height: i32,
    obstacles: Vec<Position>,
}

/// Whether `v` holds `p`.
fn contains_position(v: &Vec<Position>, p: Position) -> (r: bool)
    ensures
        r == v@.contains(p),
{
    let mut i: usize = 0;
    while i < v.len()
        invariant
            i <= v@.len(),
            forall|j: int| 0 <= j < i ==> v@[j] != p,
        decreases v@.len() - i,
    {
        if v[i] == p {
            return true;
        }
        i = i + 1;
    }
    false
}

/// An element-by-element copy of a vector of positions.
fn copy_positions(v: &Vec<Position>) -> (r: Vec<Position>)
    ensures
        r@ == v@,
{
    let mut r: Vec<Position> = Vec::new();
    let mut i: usize = 0;
    while i < v.len()
        invariant
            i <= v@.len(),
            r@ == v@.take(i as int),
        decreases v@.len() - i,
    {
        r.push(v[i]);
        i = i + 1;
        proof {
            assert(r@ =~= v@.take(i as int));
        }
    }
    proof {
        assert(r@ =~= v@);
    }
    r
}

impl Tabletop {
    /// Both dimensions are positive, every obstacle is in bounds, and no
    /// obstacle is recorded twice.
    #[verifier::type_invariant]
    spec fn wf(self) -> bool {
        &&& self.width > 0
        &&& self.height > 0
        &&& forall|i: int|
            0 <= i < self.obstacles@.len() ==> self.spec_in_bounds(#[trigger] self.obstacles@[i])
        &&& forall|i: int, j: int|
            0 <= i < j < self.obstacles@.len() ==> self.obstacles@[i] != self.obstacles@[j]
    }

    /// The tabletop's width.
    pub closed spec fn spec_width(self) -> i32 {
        self.width
    }

    /// The tabletop's height.
    pub closed spec fn spec_height(self) -> i32 {
        self.height
    }

    /// The obstacles, in the order they were added.
    pub closed spec fn spec_obstacles(self) -> Seq<Position> {
        self.obstacles@
    }

    /// Whether `p` lies on the tabletop.
    pub open spec fn spec_in_bounds(self, p: Position) -> bool {
        0 <= p.x < self.spec_width() && 0 <= p.y < self.spec_height()
    }

    /// Whether `p` holds an obstacle.
    pub open spec fn spec_blocked(self, p: Position) -> bool {
        self.spec_obstacles().contains(p)
    }

    /// The single validation gate for placement and movement: out-of-bounds
    /// squares are refused first, then blocked ones; any other square may be
    /// occupied.
    pub open spec fn spec_request_place(self, p: Position) -> Result<(), PlacementError> {
        if !self.spec_in_bounds(p) {
            Err(PlacementError::OutOfBounds)
        } else if self.spec_blocked(p) {
            Err(PlacementError::Blocked)
        } else {
            Ok(())
        }
    }

    /// Builds a tabletop with the given dimensions and no obstacles; both
    /// dimensions must be strictly positive.
    pub fn new(width: i32, height: i32) -> (r: Result<Tabletop, ConfigError>)
        ensures
            match r {
                Ok(t) => {
                    &&& width > 0 && height > 0
                    &&& t.spec_width() == width
                    &&& t.spec_height() == height
                    &&& t.spec_obstacles() == Seq::<Position>::empty()
                },
                Err(e) => {
                    &&& e == ConfigError::InvalidDimensions
                    &&& !(width > 0 && height > 0)
                },
            },
    {
        if width > 0 && height > 0 {
            let obstacles: Vec<Position> = Vec::new();
            proof {
                assert(obstacles@ =~= Seq::<Position>::empty());
            }
            Ok(Tabletop { width, height, obstacles })
        } else {
            Err(ConfigError::InvalidDimensions)
        }
    }

    /// Records an obstacle at `(x, y)`. Coordinates outside the bounds are
    /// refused; an obstacle already present is left as it is.
    pub fn add_obstacle(&mut self, x: i32, y: i32) -> (r: Result<(), PlacementError>)
        ensures
            ({
                let p = Position { x, y };
                if old(self).spec_in_bounds(p) {
                    &&& r == Ok::<(), PlacementError>(())
                    &&& final (self).spec_width() == old(self).spec_width()
                    &&& final (self).spec_height() == old(self).spec_height()
                    &&& final (self).spec_obstacles() == (if old(self).spec_blocked(p) {
                        old(self).spec_obstacles()
                    } else {
                        old(self).spec_obstacles().push(p)
                    })
                } else {
                    &&& r == Err::<(), PlacementError>(PlacementError::OutOfBounds)
                    &&& *final (self) == *old(self)
                }
            }),
    {
        let p = Position { x, y };
        if x >= 0 && y >= 0 && x < self.width && y < self.height {
            proof {
                use_type_invariant(&*self);
            }
            if !contains_position(&self.obstacles, p) {
                let mut obs: Vec<Position> = Vec::new();
                std::mem::swap(&mut obs, &mut self.obstacles);
                obs.push(p);
                std::mem::swap(&mut obs, &mut self.obstacles);
            }
            Ok(())
        } else {
            Err(PlacementError::OutOfBounds)
        }
    }

    /// Checks whether an item could be placed at `position`: `OutOfBounds`
    /// off the grid, `Blocked` on an obstacle, and success anywhere else.
    /// A query only; the tabletop never changes.
    pub fn request_place(&self, position: &Position) -> (r: Result<(), PlacementError>)
        ensures
            r == self.spec_request_place(*position),
    {
        if !(position.x >= 0 && position.y >= 0 && position.x < self.width && position.y
            < self.height) {
            Err(PlacementError::OutOfBounds)
        } else if contains_position(&self.obstacles, *position) {
            Err(PlacementError::Blocked)
        } else {
            Ok(())
        }
    }

    /// The tabletop's width.
    pub fn width(&self) -> (r: i32)
        ensures
            r == self.spec_width(),
    {
        self.width
    }

    /// The tabletop's height.
    pub fn height(&self) -> (r: i32)
        ensures
            r == self.spec_height(),
    {
        self.height
    }

    /// The obstacles recorded so far, in the order they were added.
    pub fn obstacles(&self) -> (r: &Vec<Position>)
        ensures
            r@ == self.spec_obstacles(),
    {
        &self.obstacles
    }
}

impl Clone for Tabletop {
    /// A deep copy: same dimensions, same obstacles.
    fn clone(&self) -> (r: Self)
        ensures
            r.spec_width() == self.spec_width(),
            r.spec_height() == self.spec_height(),
            r.spec_obstacles() == self.spec_obstacles(),
    {
        proof {
            use_type_invariant(self);
        }
        Tabletop { width: self.width, height: self.height, obstacles: copy_positions(
            &self.obstacles,
        ) }
    }
}

impl PartialEq for Tabletop {
    /// Two tabletops are equal when their dimensions and their obstacle
    /// lists agree.
    fn eq(&self, other: &Tabletop) -> (r: bool) {
        if self.width != other.width || self.height != other.height {
            return false;
        }
        if self.obstacles.len() != other.obstacles.len() {
            return false;
        }
        let n = self.obstacles.len();
        let mut i: usize = 0;
        while i < n
            invariant
                i <= n,
                n == self.obstacles@.len(),
                n == other.obstacles@.len(),
                forall|j: int| 0 <= j < i ==> self.obstacles@[j] == other.obstacles@[j],
            decreases n - i,
        {
            if self.obstacles[i] != other.obstacles[i] {
                return false;
            }
            i = i + 1;
        }
        proof {
            assert(self.obstacles@ =~= other.obstacles@);
        }
        true
    }
}

impl vstd::std_specs::cmp::PartialEqSpecImpl for Tabletop {
    open spec fn obeys_eq_spec() -> bool {
        true
    }

    open spec fn eq_spec(&self, other: &Tabletop) -> bool {
        self.spec_width() == other.spec_width() && self.spec_height() == other.spec_height()
            && self.spec_obstacles() == other.spec_obstacles()
    }
}

/// Any square that lies on the tabletop and holds no obstacle may be
/// occupied.
pub proof fn lemma_free_square_may_be_occupied(t: Tabletop, p: Position)
    requires
        t.spec_in_bounds(p),
        !t.spec_blocked(p),
    ensures
        t.spec_request_place(p) == Ok::<(), PlacementError>(()),
{
}

/// Any square off the tabletop is refused as out of bounds, whatever the
/// obstacles are.
pub proof fn lemma_out_of_bounds_is_refused(t: Tabletop, p: Position)
    requires
        !t.spec_in_bounds(p),
    ensures
        t.spec_request_place(p) == Err::<(), PlacementError>(PlacementError::OutOfBounds),
{
}

/// After an obstacle is added in bounds — whether it was new or already
/// present — its square is refused as blocked. The premises on `t_after`
/// are exactly what a successful `add_obstacle` ensures.
pub proof fn lemma_added_obstacle_blocks(t_before: Tabletop, t_after: Tabletop, p: Position)
    requires
        t_before.spec_in_bounds(p),
        t_after.spec_width() == t_before.spec_width(),
        t_after.spec_height() == t_before.spec_height(),
        t_after.spec_obstacles() == (if t_before.spec_blocked(p) {
            t_before.spec_obstacles()
        } else {
            t_before.spec_obstacles().push(p)
        }),
    ensures
        t_after.spec_request_place(p) == Err::<(), PlacementError>(PlacementError::Blocked),
{
    if !t_before.spec_blocked(p) {
        assert(t_after.spec_obstacles()[t_before.spec_obstacles().len() as int] == p);
    }
}

} // verus!
