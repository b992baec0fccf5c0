//! The eight compass directions, the unit step each one takes on the lattice,
//! and the two orientations of an edge.

use crate::position::{Offset, PositionDelta};
use core::ops::Neg;
use vstd::prelude::*;
use vstd::std_specs::ops::NegSpecImpl;

verus! {

/// A compass direction. North is towards smaller `y`, west towards smaller `x`.
#[derive(PartialEq, Eq, Structural, Clone, Copy, Debug, Hash)]
pub enum Direction {
    West,
    South,
    East,
    North,
    NE,
    NW,
    SW,
    SE,
}

/// How an edge runs: a horizontal edge runs east-west and is the north or
/// south border of a surface, a vertical edge runs north-south and is the
/// west or east border of a surface.
#[derive(PartialEq, Eq, Structural, Clone, Copy, Debug, Hash)]
pub enum EdgeType {
    Horizontal,
    Vertical,
}

impl Direction {
    /// The unit step that the direction takes: one along a single axis for a
    /// cardinal direction, one along both axes for a diagonal.
    pub open spec fn delta(self) -> Offset {
        match self {
            Direction::North => Offset { dx: 0, dy: -1 },
            Direction::West => Offset { dx: -1, dy: 0 },
            Direction::South => Offset { dx: 0, dy: 1 },
            Direction::East => Offset { dx: 1, dy: 0 },
            Direction::NW => Offset { dx: -1, dy: -1 },
            Direction::SW => Offset { dx: -1, dy: 1 },
            Direction::SE => Offset { dx: 1, dy: 1 },
            Direction::NE => Offset { dx: 1, dy: -1 },
        }
    }

    /// The direction that points the other way.
    pub open spec fn opposite(self) -> Direction {
        match self {
            Direction::North => Direction::South,
            Direction::South => Direction::North,
            Direction::West => Direction::East,
            Direction::East => Direction::West,
            Direction::NW => Direction::SE,
            Direction::SE => Direction::NW,
            Direction::NE => Direction::SW,
            Direction::SW => Direction::NE,
        }
    }

    /// North, south, east or west.
    pub open spec fn is_cardinal(self) -> bool {
        self is North || self is South || self is East || self is West
    }

    /// One of the four directions between the axes.
    pub open spec fn is_diagonal(self) -> bool {
        !self.is_cardinal()
    }
}

impl EdgeType {
    /// The other orientation.
    pub open spec fn flipped(self) -> EdgeType {
        match self {
            EdgeType::Vertical => EdgeType::Horizontal,
            EdgeType::Horizontal => EdgeType::Vertical,
        }
    }

    /// `d` points along an edge of this orientation: north or south along a
    /// vertical edge, west or east along a horizontal one.
    pub open spec fn runs_along(self, d: Direction) -> bool {
        match self {
            EdgeType::Vertical => d == Direction::North || d == Direction::South,
            EdgeType::Horizontal => d == Direction::West || d == Direction::East,
        }
    }

    /// `d` points straight across an edge of this orientation: west or east
    /// across a vertical edge, north or south across a horizontal one.
    pub open spec fn crossed_by(self, d: Direction) -> bool {
        self.flipped().runs_along(d)
    }
}

impl NegSpecImpl for Direction {
    open spec fn obeys_neg_spec() -> bool {
        true
    }

    open spec fn neg_req(self) -> bool {
        true
    }

    open spec fn neg_spec(self) -> Direction {
        self.opposite()
    }
}

impl Neg for Direction {
    type Output = Direction;

    /// The opposite direction: the one whose unit step undoes this one's.
    fn neg(self) -> (r: Direction)
        ensures
            r == self.opposite(),
            r.delta() == self.delta().reversed(),
    {
        match self {
            Direction::North => Direction::South,
            Direction::West => Direction::East,
            Direction::South => Direction::North,
            Direction::East => Direction::West,
            Direction::NW => Direction::SE,
            Direction::SW => Direction::NE,
            Direction::SE => Direction::NW,
            Direction::NE => Direction::SW,
        }
    }
}

impl NegSpecImpl for EdgeType {
    open spec fn obeys_neg_spec() -> bool {
        true
    }

    open spec fn neg_req(self) -> bool {
        true
    }

    open spec fn neg_spec(self) -> EdgeType {
        self.flipped()
    }
}

impl Neg for EdgeType {
    type Output = EdgeType;

    /// The other orientation.
    fn neg(self) -> (r: EdgeType)
        ensures
            r == self.flipped(),
    {
        match self {
            EdgeType::Vertical => EdgeType::Horizontal,
            EdgeType::Horizontal => EdgeType::Vertical,
        }
    }
}

/// The unit step of a direction, as a displacement of positions.
pub fn direction_delta(d: Direction) -> (r: PositionDelta)
    ensures
        r@ == d.delta(),
{
    match d {
        Direction::North => PositionDelta::new(0, -1),
        Direction::West => PositionDelta::new(-1, 0),
        Direction::South => PositionDelta::new(0, 1),
        Direction::East => PositionDelta::new(1, 0),
        Direction::NW => PositionDelta::new(-1, -1),
        Direction::SW => PositionDelta::new(-1, 1),
        Direction::SE => PositionDelta::new(1, 1),
        Direction::NE => PositionDelta::new(1, -1),
    }
}

/// Turning round twice gives back the direction one started with.
pub proof fn lemma_opposite_is_involution(d: Direction)
    ensures
        d.opposite().opposite() == d,
{
}

/// The opposite direction takes the reversed step, and no other direction
/// does: a direction is known by its step.
pub proof fn lemma_opposite_reverses_step(d: Direction, e: Direction)
    ensures
        d.opposite().delta() == d.delta().reversed(),
        e.delta() == d.delta().reversed() ==> e == d.opposite(),
{
}

} // verus!
