//! Lattice elements of any kind behind one type, and the adjacency queries on
//! it. A query answers `None` where the element has no neighbor of the wanted
//! kind in the direction asked for.

use crate::adjacency::Element;
use crate::direction::{direction_delta, Direction, EdgeType};
use crate::elements::{Edge, Tile, Vertex};
use crate::position::Position;
use vstd::prelude::*;

verus! {

/// A vertex, a surface or an edge of the lattice.
#[derive(PartialEq, Eq, Structural, Debug, Clone, Copy, Hash)]
pub enum GridElement {
    Vertex(Position),
    Surface(Position),
    Edge(Position, EdgeType),
}

/// A lattice element seen as a place on the lattice.
pub type Location = GridElement;

impl View for GridElement {
    type V = Element;

    open spec fn view(&self) -> Element {
        match self {
            GridElement::Vertex(p) => Element::Vertex(p@),
            GridElement::Surface(p) => Element::Surface(p@),
            GridElement::Edge(p, t) => Element::Edge(p@, *t),
        }
    }
}

/// What an answer to an adjacency query stands for on the unbounded lattice.
pub open spec fn answer_view(r: Option<GridElement>) -> Option<Element> {
    match r {
        Some(e) => Some(e@),
        None => None,
    }
}

/// The element of the same kind that lies in direction `d` of `l`.
pub fn neighbor(l: GridElement, d: Direction) -> (r: GridElement)
    requires
        l@.neighbor(d).fits(),
    ensures
        r@ == l@.neighbor(d),
{
    match l {
        GridElement::Vertex(p) => GridElement::Vertex(p + direction_delta(d)),
        GridElement::Surface(p) => GridElement::Surface(p + direction_delta(d)),
        GridElement::Edge(p, t) => match d {
            Direction::North | Direction::West | Direction::South | Direction::East => {
                GridElement::Edge(p + direction_delta(d), t)
            },
            _ => {
                let e = Edge::from_position(p, t).adjacent_edge(d);
                GridElement::Edge(e.pos, e.t)
            },
        },
    }
}

/// The surface that lies in direction `d` of `l`, if `l` has one there.
pub fn adjacent_surface(l: GridElement, d: Direction) -> (r: Option<GridElement>)
    requires
        l@.adjacent_surface(d) matches Some(s) ==> s.fits(),
    ensures
        answer_view(r) == l@.adjacent_surface(d),
{
    match l {
        GridElement::Surface(_) => Some(neighbor(l, d)),
        GridElement::Vertex(p) => match d {
            Direction::NW | Direction::SW | Direction::SE | Direction::NE => Some(
                GridElement::Surface(Vertex::from_position(p).adjacent_tile(d).pos),
            ),
            _ => None,
        },
        GridElement::Edge(p, t) => match (t, d) {
            (EdgeType::Vertical, Direction::West)
            | (EdgeType::Vertical, Direction::East)
            | (EdgeType::Horizontal, Direction::North)
            | (EdgeType::Horizontal, Direction::South) => Some(
                GridElement::Surface(Edge::from_position(p, t).adjacent_tile(d).pos),
            ),
            _ => None,
        },
    }
}

/// The edge that lies in direction `d` of `l`, if `l` has one there.
pub fn adjacent_edge(l: GridElement, d: Direction) -> (r: Option<GridElement>)
    requires
        l@.adjacent_edge(d) matches Some(e) ==> e.fits(),
    ensures
        answer_view(r) == l@.adjacent_edge(d),
{
    match l {
        GridElement::Surface(p) => match d {
            Direction::North | Direction::West | Direction::South | Direction::East => {
                let e = Tile::from_position(p).adjacent_edge(d);
                Some(GridElement::Edge(e.pos, e.t))
            },
            _ => None,
        },
        GridElement::Edge(p, t) => match (t, d) {
            (EdgeType::Vertical, Direction::North)
            | (EdgeType::Vertical, Direction::South)
            | (EdgeType::Horizontal, Direction::West)
            | (EdgeType::Horizontal, Direction::East) => {
                let e = Edge::from_position(p, t).adjacent_edge(d);
                Some(GridElement::Edge(e.pos, e.t))
            },
            _ => None,
        },
        GridElement::Vertex(p) => match d {
            Direction::North | Direction::West | Direction::South | Direction::East => {
                let e = Vertex::from_position(p).adjacent_edge(d);
                Some(GridElement::Edge(e.pos, e.t))
            },
            _ => None,
        },
    }
}

/// The vertex that lies in direction `d` of `l`, if `l` has one there.
pub fn adjacent_vertex(l: GridElement, d: Direction) -> (r: Option<GridElement>)
    requires
        l@.adjacent_vertex(d) matches Some(v) ==> v.fits(),
    ensures
        answer_view(r) == l@.adjacent_vertex(d),
{
    match l {
        GridElement::Surface(p) => match d {
            Direction::NW | Direction::SW | Direction::SE | Direction::NE => Some(
                GridElement::Vertex(Tile::from_position(p).adjacent_vertex(d).pos),
            ),
            _ => None,
        },
        GridElement::Edge(p, t) => match (t, d) {
            (EdgeType::Vertical, Direction::North)
            | (EdgeType::Vertical, Direction::South)
            | (EdgeType::Horizontal, Direction::West)
            | (EdgeType::Horizontal, Direction::East) => Some(
                GridElement::Vertex(Edge::from_position(p, t).adjacent_vertex(d).pos),
            ),
            _ => None,
        },
        GridElement::Vertex(_) => None,
    }
}

/// An element is known by what it stands for: two elements that stand for the
/// same element of the unbounded lattice are equal.
pub proof fn lemma_element_is_known_by_its_view(a: GridElement, b: GridElement)
    requires
        a@ == b@,
    ensures
        a == b,
{
}

} // verus!
