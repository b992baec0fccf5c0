//! The adjacency relation between the surfaces, edges and vertices of the
//! unbounded lattice, and the laws it obeys.
//!
//! A surface is addressed by the position of its north-west corner. An edge
//! is addressed as the north border (horizontal) or the west border
//! (vertical) of the surface at its position, so the south border of a
//! surface is the north border of the surface below it, and its east border
//! the west border of the surface to its right. A vertex at a position is the
//! north-west corner of the surface there.

use crate::direction::{Direction, EdgeType};
use crate::position::Coord;
use vstd::prelude::*;

verus! {

/// An element of the unbounded lattice: what a `GridElement`, a `Tile`, an
/// `Edge` or a `Vertex` stands for.
pub enum Element {
    Vertex(Coord),
    Surface(Coord),
    Edge(Coord, EdgeType),
}

impl Element {
    /// The position by which the element is addressed.
    pub open spec fn position(self) -> Coord {
        match self {
            Element::Vertex(p) => p,
            Element::Surface(p) => p,
            Element::Edge(p, _) => p,
        }
    }

    /// Where the middle of the element lies, counted in half cells from the
    /// vertex at the origin. A vertex lies on the lattice lines through its
    /// position, a surface half a cell to the south-east of them, a vertical
    /// edge half a cell to the south and a horizontal edge half a cell to the
    /// east.
    pub open spec fn centre(self) -> Coord {
        match self {
            Element::Vertex(p) => Coord { x: 2 * p.x, y: 2 * p.y },
            Element::Surface(p) => Coord { x: 2 * p.x + 1, y: 2 * p.y + 1 },
            Element::Edge(p, EdgeType::Vertical) => Coord { x: 2 * p.x, y: 2 * p.y + 1 },
            Element::Edge(p, EdgeType::Horizontal) => Coord { x: 2 * p.x + 1, y: 2 * p.y },
        }
    }

    /// The element's position can be held in a pair of `i32`.
    pub open spec fn fits(self) -> bool {
        self.position().fits()
    }

    /// The surface that lies in direction `d` of the element, if there is one.
    ///
    /// A surface has a surface on all eight sides. A vertex touches four
    /// surfaces, one on each diagonal. An edge separates two surfaces, which
    /// lie straight across it.
    pub open spec fn adjacent_surface(self, d: Direction) -> Option<Element> {
        match self {
            Element::Surface(p) => Some(Element::Surface(p.step(d))),
            Element::Vertex(p) => match d {
                Direction::NW => Some(Element::Surface(p.step(Direction::NW))),
                Direction::NE => Some(Element::Surface(p.step(Direction::North))),
                Direction::SW => Some(Element::Surface(p.step(Direction::West))),
                Direction::SE => Some(Element::Surface(p)),
                _ => None,
            },
            Element::Edge(p, EdgeType::Vertical) => match d {
                Direction::West => Some(Element::Surface(p.step(Direction::West))),
                Direction::East => Some(Element::Surface(p)),
                _ => None,
            },
            Element::Edge(p, EdgeType::Horizontal) => match d {
                Direction::North => Some(Element::Surface(p.step(Direction::North))),
                Direction::South => Some(Element::Surface(p)),
                _ => None,
            },
        }
    }

    /// The edge that lies in direction `d` of the element, if there is one.
    ///
    /// A surface has a border on each cardinal side. Four edges meet at a
    /// vertex, one in each cardinal direction. An edge is continued by an
    /// edge of the same orientation at either end.
    pub open spec fn adjacent_edge(self, d: Direction) -> Option<Element> {
        match self {
            Element::Surface(p) => match d {
                Direction::North => Some(Element::Edge(p, EdgeType::Horizontal)),
                Direction::West => Some(Element::Edge(p, EdgeType::Vertical)),
                Direction::South => Some(
                    Element::Edge(p.step(Direction::South), EdgeType::Horizontal),
                ),
                Direction::East => Some(Element::Edge(p.step(Direction::East), EdgeType::Vertical)),
                _ => None,
            },
            Element::Edge(p, t) => if t.runs_along(d) {
                Some(Element::Edge(p.step(d), t))
            } else {
                None
            },
            Element::Vertex(p) => match d {
                Direction::North => Some(Element::Edge(p.step(Direction::North), EdgeType::Vertical)),
                Direction::South => Some(Element::Edge(p, EdgeType::Vertical)),
                Direction::West => Some(
                    Element::Edge(p.step(Direction::West), EdgeType::Horizontal),
                ),
                Direction::East => Some(Element::Edge(p, EdgeType::Horizontal)),
                _ => None,
            },
        }
    }

    /// The vertex that lies in direction `d` of the element, if there is one.
    ///
    /// A surface has a corner on each diagonal. An edge ends in a vertex at
    /// either end. No vertex is adjacent to a vertex.
    pub open spec fn adjacent_vertex(self, d: Direction) -> Option<Element> {
        match self {
            Element::Surface(p) => match d {
                Direction::NW => Some(Element::Vertex(p)),
                Direction::NE => Some(Element::Vertex(p.step(Direction::East))),
                Direction::SW => Some(Element::Vertex(p.step(Direction::South))),
                Direction::SE => Some(Element::Vertex(p.step(Direction::SE))),
                _ => None,
            },
            Element::Edge(p, EdgeType::Vertical) => match d {
                Direction::North => Some(Element::Vertex(p)),
                Direction::South => Some(Element::Vertex(p.step(Direction::South))),
                _ => None,
            },
            Element::Edge(p, EdgeType::Horizontal) => match d {
                Direction::West => Some(Element::Vertex(p)),
                Direction::East => Some(Element::Vertex(p.step(Direction::East))),
                _ => None,
            },
            Element::Vertex(_) => None,
        }
    }

    /// The element of the kind of `like` that lies in direction `d` of the
    /// element, if there is one.
    pub open spec fn adjacent_of_kind(self, like: Element, d: Direction) -> Option<Element> {
        match like {
            Element::Vertex(_) => self.adjacent_vertex(d),
            Element::Surface(_) => self.adjacent_surface(d),
            Element::Edge(_, _) => self.adjacent_edge(d),
        }
    }

    /// The edge to which an edge moves by a diagonal step. The step turns the
    /// edge, so it is taken by pivoting: from a corner of the edge to the
    /// surface that lies in direction `d` of that corner, and from there to a
    /// border of that surface. A vertical edge pivots about the vertex at its
    /// own position, to the south border of the surface; a horizontal edge
    /// about the vertex at its east end, to the west border.
    pub open spec fn pivot(p: Coord, t: EdgeType, d: Direction) -> Element
        recommends
            d.is_diagonal(),
    {
        match t {
            EdgeType::Vertical => {
                let v = Element::Vertex(p);
                let s = v.adjacent_surface(d).unwrap();
                s.adjacent_edge(Direction::South).unwrap()
            },
            EdgeType::Horizontal => {
                let v = Element::Edge(p, t).adjacent_vertex(Direction::East).unwrap();
                let s = v.adjacent_surface(d).unwrap();
                s.adjacent_edge(Direction::West).unwrap()
            },
        }
    }

    /// The element of the same kind that lies in direction `d`.
    ///
    /// Vertices and surfaces move by the unit step of `d`. So does an edge in
    /// a cardinal direction, keeping its orientation; on a diagonal it pivots.
    pub open spec fn neighbor(self, d: Direction) -> Element {
        match self {
            Element::Vertex(p) => Element::Vertex(p.step(d)),
            Element::Surface(p) => Element::Surface(p.step(d)),
            Element::Edge(p, t) => if d.is_cardinal() {
                Element::Edge(p.step(d), t)
            } else {
                Element::pivot(p, t, d)
            },
        }
    }
}

/// Where a diagonal step takes an edge: to the edge of the other orientation
/// that shares the end of the edge on that side. For a vertical edge that is
/// a horizontal edge to the east or west of its north or south end; for a
/// horizontal edge a vertical edge to the north or south of its west or east
/// end.
pub proof fn lemma_diagonal_step_of_edge(p: Coord)
    ensures
        Element::Edge(p, EdgeType::Vertical).neighbor(Direction::NE) == Element::Edge(
            p,
            EdgeType::Horizontal,
        ),
        Element::Edge(p, EdgeType::Vertical).neighbor(Direction::NW) == Element::Edge(
            p.step(Direction::West),
            EdgeType::Horizontal,
        ),
        Element::Edge(p, EdgeType::Vertical).neighbor(Direction::SE) == Element::Edge(
            p.step(Direction::South),
            EdgeType::Horizontal,
        ),
        Element::Edge(p, EdgeType::Vertical).neighbor(Direction::SW) == Element::Edge(
            p.step(Direction::SW),
            EdgeType::Horizontal,
        ),
        Element::Edge(p, EdgeType::Horizontal).neighbor(Direction::SW) == Element::Edge(
            p,
            EdgeType::Vertical,
        ),
        Element::Edge(p, EdgeType::Horizontal).neighbor(Direction::NW) == Element::Edge(
            p.step(Direction::North),
            EdgeType::Vertical,
        ),
        Element::Edge(p, EdgeType::Horizontal).neighbor(Direction::SE) == Element::Edge(
            p.step(Direction::East),
            EdgeType::Vertical,
        ),
        Element::Edge(p, EdgeType::Horizontal).neighbor(Direction::NE) == Element::Edge(
            p.step(Direction::NE),
            EdgeType::Vertical,
        ),
{
}

/// A step to the neighbor in a direction and a step from there in the
/// opposite direction lead back to the element, whatever its kind.
pub proof fn lemma_neighbor_round_trip(e: Element, d: Direction)
    ensures
        e.neighbor(d).neighbor(d.opposite()) == e,
{
}

/// A border shared by two surfaces has one address: the south border of a
/// surface is the north border of the surface to its south, a horizontal edge
/// at that surface's position, and its east border is the west border of the
/// surface to its east, a vertical edge at that surface's position.
pub proof fn lemma_shared_border_has_one_address(p: Coord)
    ensures
        Element::Surface(p).adjacent_edge(Direction::South) == Element::Surface(
            p.step(Direction::South),
        ).adjacent_edge(Direction::North),
        Element::Surface(p).adjacent_edge(Direction::South) == Some(
            Element::Edge(p.step(Direction::South), EdgeType::Horizontal),
        ),
        Element::Surface(p).adjacent_edge(Direction::East) == Element::Surface(
            p.step(Direction::East),
        ).adjacent_edge(Direction::West),
        Element::Surface(p).adjacent_edge(Direction::East) == Some(
            Element::Edge(p.step(Direction::East), EdgeType::Vertical),
        ),
{
}

/// Where a vertex has a surface in direction `d`, that surface has the
/// vertex as its corner in the opposite direction.
pub proof fn lemma_surface_of_vertex_has_it_as_corner(v: Coord, d: Direction)
    requires
        Element::Vertex(v).adjacent_surface(d) is Some,
    ensures
        Element::Vertex(v).adjacent_surface(d).unwrap().adjacent_vertex(d.opposite()) == Some(
            Element::Vertex(v),
        ),
{
}

/// No place on the lattice has two addresses: elements whose middles lie at
/// the same point are the same element.
pub proof fn lemma_one_address_per_place(a: Element, b: Element)
    requires
        a.centre() == b.centre(),
    ensures
        a == b,
{
}

/// An adjacency query looks where its direction points. The element `t` is
/// the answer to a query from `e` in direction `d` exactly if it is of the
/// kind asked for and its middle lies from the middle of `e` half a cell in
/// direction `d`, or a whole cell where `e` is of that kind itself. Beyond
/// that, an edge has an adjacent edge only along its own axis, and a vertex
/// has no adjacent vertex.
pub proof fn lemma_adjacent_lies_in_direction(e: Element, d: Direction, t: Element)
    ensures
        e.adjacent_surface(d) == Some(t) <==> {
            &&& t is Surface
            &&& t.centre() == if e is Surface {
                e.centre().plus(d.delta()).plus(d.delta())
            } else {
                e.centre().plus(d.delta())
            }
        },
        e.adjacent_edge(d) == Some(t) <==> {
            &&& t is Edge
            &&& e matches Element::Edge(_, o) ==> o.runs_along(d)
            &&& t.centre() == if e is Edge {
                e.centre().plus(d.delta()).plus(d.delta())
            } else {
                e.centre().plus(d.delta())
            }
        },
        e.adjacent_vertex(d) == Some(t) <==> {
            &&& t is Vertex
            &&& !(e is Vertex)
            &&& t.centre() == e.centre().plus(d.delta())
        },
{
}

/// A step to the neighbor keeps the kind of the element and moves its middle
/// a whole cell in the direction of the step; the diagonal step of an edge,
/// which turns the edge, moves its middle half a cell.
pub proof fn lemma_neighbor_lies_in_direction(e: Element, d: Direction)
    ensures
        e is Vertex <==> e.neighbor(d) is Vertex,
        e is Surface <==> e.neighbor(d) is Surface,
        e is Edge <==> e.neighbor(d) is Edge,
        e.neighbor(d).centre() == if e is Edge && d.is_diagonal() {
            e.centre().plus(d.delta())
        } else {
            e.centre().plus(d.delta()).plus(d.delta())
        },
{
}

/// Adjacency is mutual: where `e` has a neighbor of some kind in direction
/// `d`, that neighbor has `e` as its neighbor of the kind of `e` in the
/// opposite direction.
pub proof fn lemma_adjacency_is_mutual(e: Element, d: Direction)
    ensures
        e.adjacent_surface(d) matches Some(t) ==> t.adjacent_of_kind(e, d.opposite()) == Some(e),
        e.adjacent_edge(d) matches Some(t) ==> t.adjacent_of_kind(e, d.opposite()) == Some(e),
        e.adjacent_vertex(d) matches Some(t) ==> t.adjacent_of_kind(e, d.opposite()) == Some(e),
{
}

} // verus!
