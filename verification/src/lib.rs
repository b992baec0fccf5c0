//! Addresses on a square lattice: its cells, their borders and their corners,
//! the adjacency between them along the eight compass directions, and the
//! mapping between lattice addresses and integer world coordinates.

pub mod adjacency;
pub mod coord_trans;
pub mod direction;
pub mod elements;
pub mod grid;
pub mod position;

pub use crate::adjacency::Element;
pub use crate::coord_trans::{Frame, Layout, Point, Vector, WorldCoord};
pub use crate::direction::{direction_delta, Direction, EdgeType};
pub use crate::elements::{Edge, Tile, Vertex};
pub use crate::grid::{
    adjacent_edge, adjacent_surface, adjacent_vertex, neighbor, GridElement, Location,
};
pub use crate::position::{Coord, Offset, Position, PositionDelta};
