//! Lattice positions, the displacements between them, and the unbounded
//! integer lattice that both stand for.

use crate::direction::Direction;
use core::ops::{Add, Sub};
use vstd::prelude::*;
use vstd::std_specs::ops::{AddSpecImpl, SubSpecImpl};

verus! {

/// A point of the unbounded integer lattice: what a `Position` stands for.
pub struct Coord {
    pub x: int,
    pub y: int,
}

/// A displacement on the unbounded integer lattice: what a `PositionDelta`
/// stands for.
pub struct Offset {
    pub dx: int,
    pub dy: int,
}

impl Coord {
    /// The point reached from this one by the displacement `o`.
    pub open spec fn plus(self, o: Offset) -> Coord {
        Coord { x: self.x + o.dx, y: self.y + o.dy }
    }

    /// The point from which the displacement `o` leads to this one.
    pub open spec fn minus(self, o: Offset) -> Coord {
        Coord { x: self.x - o.dx, y: self.y - o.dy }
    }

    /// The point one unit step away in direction `d`.
    pub open spec fn step(self, d: Direction) -> Coord {
        self.plus(d.delta())
    }

    /// The displacement that leads from `other` to this point.
    pub open spec fn offset_from(self, other: Coord) -> Offset {
        Offset { dx: self.x - other.x, dy: self.y - other.y }
    }

    /// Both coordinates can be held in an `i32`.
    pub open spec fn fits(self) -> bool {
        i32::MIN <= self.x <= i32::MAX && i32::MIN <= self.y <= i32::MAX
    }
}

impl Offset {
    /// The displacement that leads back.
    pub open spec fn reversed(self) -> Offset {
        Offset { dx: -self.dx, dy: -self.dy }
    }

    /// One displacement after the other.
    pub open spec fn plus(self, o: Offset) -> Offset {
        Offset { dx: self.dx + o.dx, dy: self.dy + o.dy }
    }

    /// Both components can be held in an `i32`.
    pub open spec fn fits(self) -> bool {
        i32::MIN <= self.dx <= i32::MAX && i32::MIN <= self.dy <= i32::MAX
    }
}

/// A position on the lattice, shared by surfaces, edges and vertices.
#[derive(PartialEq, Eq, Structural, Debug, Clone, Copy, Hash)]
pub struct Position {
    pub x: i32,
    pub y: i32,
}

/// The difference of two positions, or a step from one to another.
#[derive(PartialEq, Eq, Structural, Debug, Clone, Copy, Hash)]
pub struct PositionDelta {
    pub dx: i32,
    pub dy: i32,
}

impl View for Position {
    type V = Coord;

    open spec fn view(&self) -> Coord {
        Coord { x: self.x as int, y: self.y as int }
    }
}

impl View for PositionDelta {
    type V = Offset;

    open spec fn view(&self) -> Offset {
        Offset { dx: self.dx as int, dy: self.dy as int }
    }
}

impl Position {
    /// The position (0, 0).
    pub fn origin() -> (p: Position)
        ensures
            p.x == 0,
            p.y == 0,
    {
        Position { x: 0, y: 0 }
    }

    /// The position (`x`, `y`).
    pub fn new(x: i32, y: i32) -> (p: Position)
        ensures
            p.x == x,
            p.y == y,
    {
        Position { x: x, y: y }
    }

    /// The step that leads from `other` to this position.
    pub fn distance_to(&self, other: Position) -> (d: PositionDelta)
        requires
            self@.offset_from(other@).fits(),
        ensures
            d@ == self@.offset_from(other@),
    {
        PositionDelta { dx: self.x - other.x, dy: self.y - other.y }
    }

    /// The position that stands for `self@.plus(d@)`, where that fits.
    pub open spec fn moved_by(self, d: PositionDelta) -> Position {
        Position { x: (self.x + d.dx) as i32, y: (self.y + d.dy) as i32 }
    }

    /// The position that stands for `self@.minus(d@)`, where that fits.
    pub open spec fn moved_back_by(self, d: PositionDelta) -> Position {
        Position { x: (self.x - d.dx) as i32, y: (self.y - d.dy) as i32 }
    }
}

impl PositionDelta {
    /// The step by `x` along the x axis and by `y` along the y axis.
    pub fn new(x: i32, y: i32) -> (d: PositionDelta)
        ensures
            d.dx == x,
            d.dy == y,
    {
        PositionDelta { dx: x, dy: y }
    }

    /// The step that leads from the origin to `p`.
    pub fn from_position(p: Position) -> (d: PositionDelta)
        ensures
            d.dx == p.x,
            d.dy == p.y,
    {
        PositionDelta { dx: p.x, dy: p.y }
    }
}

impl AddSpecImpl<PositionDelta> for Position {
    open spec fn obeys_add_spec() -> bool {
        true
    }

    open spec fn add_req(self, rhs: PositionDelta) -> bool {
        self@.plus(rhs@).fits()
    }

    open spec fn add_spec(self, rhs: PositionDelta) -> Position {
        self.moved_by(rhs)
    }
}

impl Add<PositionDelta> for Position {
    type Output = Position;

    fn add(self, other: PositionDelta) -> (r: Position)
        ensures
            r@ == self@.plus(other@),
    {
        Position::new(self.x + other.dx, self.y + other.dy)
    }
}

impl<'a> AddSpecImpl<PositionDelta> for &'a Position {
    open spec fn obeys_add_spec() -> bool {
        true
    }

    open spec fn add_req(self, rhs: PositionDelta) -> bool {
        self@.plus(rhs@).fits()
    }

    open spec fn add_spec(self, rhs: PositionDelta) -> Position {
        self.moved_by(rhs)
    }
}

impl<'a> Add<PositionDelta> for &'a Position {
    type Output = Position;

    fn add(self, other: PositionDelta) -> (r: Position)
        ensures
            r@ == self@.plus(other@),
    {
        Position::new(self.x + other.dx, self.y + other.dy)
    }
}

impl<'a> AddSpecImpl<&'a PositionDelta> for Position {
    open spec fn obeys_add_spec() -> bool {
        true
    }

    open spec fn add_req(self, rhs: &'a PositionDelta) -> bool {
        self@.plus(rhs@).fits()
    }

    open spec fn add_spec(self, rhs: &'a PositionDelta) -> Position {
        self.moved_by(*rhs)
    }
}

impl<'a> Add<&'a PositionDelta> for Position {
    type Output = Position;

    fn add(self, other: &'a PositionDelta) -> (r: Position)
        ensures
            r@ == self@.plus(other@),
    {
        Position::new(self.x + other.dx, self.y + other.dy)
    }
}

impl<'a, 'b> AddSpecImpl<&'a PositionDelta> for &'b Position {
    open spec fn obeys_add_spec() -> bool {
        true
    }

    open spec fn add_req(self, rhs: &'a PositionDelta) -> bool {
        self@.plus(rhs@).fits()
    }

    open spec fn add_spec(self, rhs: &'a PositionDelta) -> Position {
        self.moved_by(*rhs)
    }
}

impl<'a, 'b> Add<&'a PositionDelta> for &'b Position {
    type Output = Position;

    fn add(self, other: &'a PositionDelta) -> (r: Position)
        ensures
            r@ == self@.plus(other@),
    {
        Position::new(self.x + other.dx, self.y + other.dy)
    }
}

impl SubSpecImpl<PositionDelta> for Position {
    open spec fn obeys_sub_spec() -> bool {
        true
    }

    open spec fn sub_req(self, rhs: PositionDelta) -> bool {
        self@.minus(rhs@).fits()
    }

    open spec fn sub_spec(self, rhs: PositionDelta) -> Position {
        self.moved_back_by(rhs)
    }
}

impl Sub<PositionDelta> for Position {
    type Output = Position;

    fn sub(self, other: PositionDelta) -> (r: Position)
        ensures
            r@ == self@.minus(other@),
    {
        Position::new(self.x - other.dx, self.y - other.dy)
    }
}

impl<'a> SubSpecImpl<PositionDelta> for &'a Position {
    open spec fn obeys_sub_spec() -> bool {
        true
    }

    open spec fn sub_req(self, rhs: PositionDelta) -> bool {
        self@.minus(rhs@).fits()
    }

    open spec fn sub_spec(self, rhs: PositionDelta) -> Position {
        self.moved_back_by(rhs)
    }
}

impl<'a> Sub<PositionDelta> for &'a Position {
    type Output = Position;

    fn sub(self, other: PositionDelta) -> (r: Position)
        ensures
            r@ == self@.minus(other@),
    {
        Position::new(self.x - other.dx, self.y - other.dy)
    }
}

impl<'a> SubSpecImpl<&'a PositionDelta> for Position {
    open spec fn obeys_sub_spec() -> bool {
        true
    }

    open spec fn sub_req(self, rhs: &'a PositionDelta) -> bool {
        self@.minus(rhs@).fits()
    }

    open spec fn sub_spec(self, rhs: &'a PositionDelta) -> Position {
        self.moved_back_by(*rhs)
    }
}

impl<'a> Sub<&'a PositionDelta> for Position {
    type Output = Position;

    fn sub(self, other: &'a PositionDelta) -> (r: Position)
        ensures
            r@ == self@.minus(other@),
    {
        Position::new(self.x - other.dx, self.y - other.dy)
    }
}

impl<'a, 'b> SubSpecImpl<&'a PositionDelta> for &'b Position {
    open spec fn obeys_sub_spec() -> bool {
        true
    }

    open spec fn sub_req(self, rhs: &'a PositionDelta) -> bool {
        self@.minus(rhs@).fits()
    }

    open spec fn sub_spec(self, rhs: &'a PositionDelta) -> Position {
        self.moved_back_by(*rhs)
    }
}

impl<'a, 'b> Sub<&'a PositionDelta> for &'b Position {
    type Output = Position;

    fn sub(self, other: &'a PositionDelta) -> (r: Position)
        ensures
            r@ == self@.minus(other@),
    {
        Position::new(self.x - other.dx, self.y - other.dy)
    }
}

/// One unit step in a direction and then the same step back leaves a point
/// where it was.
pub proof fn lemma_step_and_back(p: Coord, d: Direction)
    ensures
        p.plus(d.delta()).minus(d.delta()) == p,
{
}

/// Displacements act on points as an additive group: a step is undone by
/// stepping back, the order of two steps does not matter, two steps in a row
/// are the step by their sum, and the step between two points leads from the
/// one to the other.
pub proof fn lemma_offsets_act_additively(p: Coord, q: Coord, a: Offset, b: Offset)
    ensures
        p.plus(a).minus(a) == p,
        p.minus(a).plus(a) == p,
        p.minus(a) == p.plus(a.reversed()),
        p.plus(a).plus(b) == p.plus(b).plus(a),
        p.plus(a).plus(b) == p.plus(a.plus(b)),
        q.plus(p.offset_from(q)) == p,
{
}

} // verus!
