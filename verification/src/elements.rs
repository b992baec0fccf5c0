//! Surfaces, edges and vertices as types of their own, each with the
//! adjacency queries that make sense for its kind.
//!
//! A query takes only the directions in which its kind has such a neighbor;
//! the functions on `GridElement` take any direction and say when there is
//! none.

use crate::adjacency::Element;
use crate::direction::{direction_delta, Direction, EdgeType};
use crate::position::Position;
use core::ops::Neg;
use vstd::pervasive::unreached;
use vstd::prelude::*;

verus! {

/// A cell of the lattice, addressed by its north-west corner.
#[derive(PartialEq, Eq, Structural, Debug, Clone, Copy, Hash)]
pub struct Tile {
    pub pos: Position,
}

/// A border between two cells: the north border (horizontal) or the west
/// border (vertical) of the cell at its position.
#[derive(PartialEq, Eq, Structural, Debug, Clone, Copy, Hash)]
pub struct Edge {
    pub pos: Position,
    pub t: EdgeType,
}

/// A corner where four cells meet: the north-west corner of the cell at its
/// position.
#[derive(PartialEq, Eq, Structural, Debug, Clone, Copy, Hash)]
pub struct Vertex {
    pub pos: Position,
}

impl View for Tile {
    type V = Element;

    open spec fn view(&self) -> Element {
        Element::Surface(self.pos@)
    }
}

impl View for Edge {
    type V = Element;

    open spec fn view(&self) -> Element {
        Element::Edge(self.pos@, self.t)
    }
}

impl View for Vertex {
    type V = Element;

    open spec fn view(&self) -> Element {
        Element::Vertex(self.pos@)
    }
}

impl Tile {
    /// The tile whose north-west corner is at (`x`, `y`).
    pub fn new(x: i32, y: i32) -> (s: Tile)
        ensures
            s.pos.x == x,
            s.pos.y == y,
    {
        Tile { pos: Position { x, y } }
    }

    /// The tile whose north-west corner is at `pos`.
    pub fn from_position(pos: Position) -> (s: Tile)
        ensures
            s.pos == pos,
    {
        Tile { pos }
    }

    /// The tile that lies in direction `d` of this one.
    pub fn adjacent_tile(&self, d: Direction) -> (s: Tile)
        requires
            self@.neighbor(d).fits(),
        ensures
            s@ == self@.neighbor(d),
            self@.adjacent_surface(d) == Some(s@),
    {
        Tile::from_position(self.pos + direction_delta(d))
    }

    /// The eight tiles around this one, clockwise from the north-west:
    ///
    /// ```text
    /// 0 1 2
    /// 7 * 3
    /// 6 5 4
    /// ```
    pub fn neighbors(&self) -> (r: Vec<Tile>)
        requires
            self@.neighbor(Direction::NW).fits(),
            self@.neighbor(Direction::SE).fits(),
        ensures
            r@.len() == 8,
            r@[0]@ == self@.neighbor(Direction::NW),
            r@[1]@ == self@.neighbor(Direction::North),
            r@[2]@ == self@.neighbor(Direction::NE),
            r@[3]@ == self@.neighbor(Direction::East),
            r@[4]@ == self@.neighbor(Direction::SE),
            r@[5]@ == self@.neighbor(Direction::South),
            r@[6]@ == self@.neighbor(Direction::SW),
            r@[7]@ == self@.neighbor(Direction::West),
    {
        let mut r: Vec<Tile> = Vec::new();
        r.push(self.adjacent_tile(Direction::NW));
        r.push(self.adjacent_tile(Direction::North));
        r.push(self.adjacent_tile(Direction::NE));
        r.push(self.adjacent_tile(Direction::East));
        r.push(self.adjacent_tile(Direction::SE));
        r.push(self.adjacent_tile(Direction::South));
        r.push(self.adjacent_tile(Direction::SW));
        r.push(self.adjacent_tile(Direction::West));
        r
    }

    /// The border of this tile on its side `d`, a cardinal direction. The
    /// north and west borders are addressed at the tile's own position, the
    /// south and east borders at the position of the tile beyond them.
    pub fn adjacent_edge(&self, d: Direction) -> (e: Edge)
        requires
            d.is_cardinal(),
            self@.adjacent_edge(d).unwrap().fits(),
        ensures
            self@.adjacent_edge(d) == Some(e@),
    {
        match d {
            Direction::North => Edge::from_position(self.pos, EdgeType::Horizontal),
            Direction::West => Edge::from_position(self.pos, EdgeType::Vertical),
            Direction::South => Edge::from_position(
                self.pos + direction_delta(d),
                EdgeType::Horizontal,
            ),
            Direction::East => Edge::from_position(
                self.pos + direction_delta(d),
                EdgeType::Vertical,
            ),
            _ => unreached(),
        }
    }

    /// The four borders of this tile: north, east, south, west.
    ///
    /// ```text
    ///   0
    /// 3 * 1
    ///   2
    /// ```
    pub fn edges(&self) -> (r: Vec<Edge>)
        requires
            self@.neighbor(Direction::SE).fits(),
        ensures
            r@.len() == 4,
            self@.adjacent_edge(Direction::North) == Some(r@[0]@),
            self@.adjacent_edge(Direction::East) == Some(r@[1]@),
            self@.adjacent_edge(Direction::South) == Some(r@[2]@),
            self@.adjacent_edge(Direction::West) == Some(r@[3]@),
    {
        let mut r: Vec<Edge> = Vec::new();
        r.push(self.adjacent_edge(Direction::North));
        r.push(self.adjacent_edge(Direction::East));
        r.push(self.adjacent_edge(Direction::South));
        r.push(self.adjacent_edge(Direction::West));
        r
    }

    /// The corner of this tile in the diagonal direction `d`.
    pub fn adjacent_vertex(&self, d: Direction) -> (v: Vertex)
        requires
            d.is_diagonal(),
            self@.adjacent_vertex(d).unwrap().fits(),
        ensures
            self@.adjacent_vertex(d) == Some(v@),
    {
        match d {
            Direction::NW => Vertex::from_position(self.pos),
            Direction::SW => Vertex::from_position(self.pos + direction_delta(Direction::South)),
            Direction::SE => Vertex::from_position(self.pos + direction_delta(d)),
            Direction::NE => Vertex::from_position(self.pos + direction_delta(Direction::East)),
            _ => unreached(),
        }
    }

    /// The four corners of this tile, clockwise from the north-west:
    ///
    /// ```text
    /// 0   1
    ///   *
    /// 3   2
    /// ```
    pub fn vertices(&self) -> (r: Vec<Vertex>)
        requires
            self@.neighbor(Direction::SE).fits(),
        ensures
            r@.len() == 4,
            self@.adjacent_vertex(Direction::NW) == Some(r@[0]@),
            self@.adjacent_vertex(Direction::NE) == Some(r@[1]@),
            self@.adjacent_vertex(Direction::SE) == Some(r@[2]@),
            self@.adjacent_vertex(Direction::SW) == Some(r@[3]@),
    {
        let mut r: Vec<Vertex> = Vec::new();
        r.push(self.adjacent_vertex(Direction::NW));
        r.push(self.adjacent_vertex(Direction::NE));
        r.push(self.adjacent_vertex(Direction::SE));
        r.push(self.adjacent_vertex(Direction::SW));
        r
    }
}

impl Edge {
    /// The edge of orientation `t` at (`x`, `y`): the north or the west border
    /// of the tile there.
    pub fn new(x: i32, y: i32, t: EdgeType) -> (e: Edge)
        ensures
            e.pos.x == x,
            e.pos.y == y,
            e.t == t,
    {
        Edge { pos: Position { x, y }, t: t }
    }

    /// The edge of orientation `t` at `pos`: the north or the west border of
    /// the tile there.
    pub fn from_position(pos: Position, t: EdgeType) -> (e: Edge)
        ensures
            e.pos == pos,
            e.t == t,
    {
        Edge { pos, t }
    }

    /// The tile on the side `d` of this edge, a direction straight across it.
    pub fn adjacent_tile(&self, d: Direction) -> (s: Tile)
        requires
            self.t.crossed_by(d),
            self@.adjacent_surface(d).unwrap().fits(),
        ensures
            self@.adjacent_surface(d) == Some(s@),
    {
        match (self.t, d) {
            (EdgeType::Vertical, Direction::West) | (EdgeType::Horizontal, Direction::North) => {
                Tile::from_position(self.pos + direction_delta(d))
            },
            (EdgeType::Vertical, Direction::East) | (EdgeType::Horizontal, Direction::South) => {
                Tile::from_position(self.pos)
            },
            _ => unreached(),
        }
    }

    /// The edge reached from this one in direction `d`: along the edge the
    /// edge that continues it, on a diagonal the edge of the other
    /// orientation that shares its end on that side. No edge lies straight
    /// across an edge.
    pub fn adjacent_edge(&self, d: Direction) -> (e: Edge)
        requires
            !self.t.crossed_by(d),
            self@.neighbor(d).fits(),
        ensures
            e@ == self@.neighbor(d),
            self.t.runs_along(d) ==> self@.adjacent_edge(d) == Some(e@),
    {
        match (self.t, d) {
            (EdgeType::Vertical, Direction::North)
            | (EdgeType::Vertical, Direction::South)
            | (EdgeType::Horizontal, Direction::West)
            | (EdgeType::Horizontal, Direction::East) => Edge::from_position(
                self.pos + direction_delta(d),
                self.t,
            ),
            (EdgeType::Vertical, Direction::NE) | (EdgeType::Horizontal, Direction::SW) => {
                Edge::from_position(self.pos, self.t.neg())
            },
            (EdgeType::Vertical, Direction::SW) | (EdgeType::Horizontal, Direction::NE) => {
                Edge::from_position(self.pos + direction_delta(d), self.t.neg())
            },
            (EdgeType::Vertical, Direction::NW) => Edge::from_position(
                self.pos + direction_delta(Direction::West),
                self.t.neg(),
            ),
            (EdgeType::Vertical, Direction::SE) => Edge::from_position(
                self.pos + direction_delta(Direction::South),
                self.t.neg(),
            ),
            (EdgeType::Horizontal, Direction::NW) => Edge::from_position(
                self.pos + direction_delta(Direction::North),
                self.t.neg(),
            ),
            (EdgeType::Horizontal, Direction::SE) => Edge::from_position(
                self.pos + direction_delta(Direction::East),
                self.t.neg(),
            ),
            _ => unreached(),
        }
    }

    /// The vertex in which this edge ends in direction `d`, a direction along
    /// it.
    pub fn adjacent_vertex(&self, d: Direction) -> (v: Vertex)
        requires
            self.t.runs_along(d),
            self@.adjacent_vertex(d).unwrap().fits(),
        ensures
            self@.adjacent_vertex(d) == Some(v@),
    {
        match (self.t, d) {
            (EdgeType::Vertical, Direction::South) | (EdgeType::Horizontal, Direction::East) => {
                Vertex::from_position(self.pos + direction_delta(d))
            },
            (EdgeType::Vertical, Direction::North) | (EdgeType::Horizontal, Direction::West) => {
                Vertex::from_position(self.pos)
            },
            _ => unreached(),
        }
    }
}

impl Vertex {
    /// The vertex at (`x`, `y`).
    pub fn new(x: i32, y: i32) -> (v: Vertex)
        ensures
            v.pos.x == x,
            v.pos.y == y,
    {
        Vertex { pos: Position { x, y } }
    }

    /// The vertex at `pos`.
    pub fn from_position(pos: Position) -> (v: Vertex)
        ensures
            v.pos == pos,
    {
        Vertex { pos }
    }

    /// The tile that touches this vertex in the diagonal direction `d`.
    pub fn adjacent_tile(&self, d: Direction) -> (s: Tile)
        requires
            d.is_diagonal(),
            self@.adjacent_surface(d).unwrap().fits(),
        ensures
            self@.adjacent_surface(d) == Some(s@),
    {
        match d {
            Direction::NW => Tile::from_position(self.pos + direction_delta(d)),
            Direction::SW => Tile::from_position(self.pos + direction_delta(Direction::West)),
            Direction::SE => Tile::from_position(self.pos),
            Direction::NE => Tile::from_position(self.pos + direction_delta(Direction::North)),
            _ => unreached(),
        }
    }

    /// The edge that leaves this vertex in the cardinal direction `d`.
    pub fn adjacent_edge(&self, d: Direction) -> (e: Edge)
        requires
            d.is_cardinal(),
            self@.adjacent_edge(d).unwrap().fits(),
        ensures
            self@.adjacent_edge(d) == Some(e@),
    {
        match d {
            Direction::North => Edge::from_position(
                self.pos + direction_delta(d),
                EdgeType::Vertical,
            ),
            Direction::South => Edge::from_position(self.pos, EdgeType::Vertical),
            Direction::West => Edge::from_position(
                self.pos + direction_delta(d),
                EdgeType::Horizontal,
            ),
            Direction::East => Edge::from_position(self.pos, EdgeType::Horizontal),
            _ => unreached(),
        }
    }
}

} // verus!
