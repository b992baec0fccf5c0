//! The mapping between world space, measured in whole world units, and the
//! addresses of the lattice laid over it.

use crate::adjacency::Element;
use crate::direction::Direction;
use crate::elements::{Tile, Vertex};
use crate::position::Coord;
use vstd::prelude::*;

verus! {

/// A point of the unbounded integer plane: what a `Point` or a `Vector` of
/// world space stands for.
pub struct WorldCoord {
    pub x: int,
    pub y: int,
}

impl WorldCoord {
    /// Both coordinates can be held in an `i32`.
    pub open spec fn fits(self) -> bool {
        i32::MIN <= self.x <= i32::MAX && i32::MIN <= self.y <= i32::MAX
    }
}

/// A point of world space.
#[derive(PartialEq, Eq, Structural, Debug, Clone, Copy, Hash)]
pub struct Point {
    pub x: i32,
    pub y: i32,
}

/// A displacement in world space.
#[derive(PartialEq, Eq, Structural, Debug, Clone, Copy, Hash)]
pub struct Vector {
    pub x: i32,
    pub y: i32,
}

impl View for Point {
    type V = WorldCoord;

    open spec fn view(&self) -> WorldCoord {
        WorldCoord { x: self.x as int, y: self.y as int }
    }
}

impl View for Vector {
    type V = WorldCoord;

    open spec fn view(&self) -> WorldCoord {
        WorldCoord { x: self.x as int, y: self.y as int }
    }
}

impl Point {
    /// The world point (`x`, `y`).
    pub fn new(x: i32, y: i32) -> (p: Point)
        ensures
            p.x == x,
            p.y == y,
    {
        Point { x, y }
    }
}

impl Vector {
    /// The displacement by `x` and `y` world units.
    pub fn new(x: i32, y: i32) -> (v: Vector)
        ensures
            v.x == x,
            v.y == y,
    {
        Vector { x, y }
    }
}

/// What a `Layout` stands for: where the lattice lies in world space and how
/// large its cells are.
pub struct Frame {
    /// The world position from which cells are counted.
    pub world_origin: WorldCoord,
    /// The lattice position that addresses are taken relative to.
    pub grid_origin: Coord,
    /// The width of a cell in world units.
    pub cell_width: int,
    /// The height of a cell in world units.
    pub cell_height: int,
}

impl Frame {
    /// Cells have a width and a height.
    pub open spec fn wf(self) -> bool {
        self.cell_width > 0 && self.cell_height > 0
    }

    /// The point `p` as seen from the world origin.
    pub open spec fn normalize(self, p: WorldCoord) -> WorldCoord {
        WorldCoord { x: p.x - self.world_origin.x, y: p.y - self.world_origin.y }
    }

    /// The position of the surface that holds the world point `p`: the
    /// normalized point divided by the cell size, rounded towards negative
    /// infinity on either side of zero, less the grid origin. (On `int`, `/`
    /// by a positive number rounds towards negative infinity.)
    pub open spec fn surface_at(self, p: WorldCoord) -> Coord {
        let n = self.normalize(p);
        Coord {
            x: n.x / self.cell_width - self.grid_origin.x,
            y: n.y / self.cell_height - self.grid_origin.y,
        }
    }

    /// The world point of the vertex at `v`: its position relative to the
    /// grid origin, scaled by the cell size, from the world origin.
    pub open spec fn world_of(self, v: Coord) -> WorldCoord {
        WorldCoord {
            x: (v.x - self.grid_origin.x) * self.cell_width + self.world_origin.x,
            y: (v.y - self.grid_origin.y) * self.cell_height + self.world_origin.y,
        }
    }

    /// The world point `p` lies in the box that `world_of` gives the surface
    /// at `s`: from its north-west corner, one cell wide and one cell high.
    pub open spec fn in_box_of(self, s: Coord, p: WorldCoord) -> bool {
        let c = self.world_of(s);
        c.x <= p.x < c.x + self.cell_width && c.y <= p.y < c.y + self.cell_height
    }
}

/// A lattice laid over world space: a world origin, a grid origin and the
/// size of a cell, which is at least one world unit each way.
pub struct Layout {
    world_origin: Vector,
    grid_origin: Vertex,
    grid_size: (u32, u32),
}

impl View for Layout {
    type V = Frame;

    closed spec fn view(&self) -> Frame {
        Frame {
            world_origin: self.world_origin@,
            grid_origin: self.grid_origin.pos@,
            cell_width: self.grid_size.0 as int,
            cell_height: self.grid_size.1 as int,
        }
    }
}

impl Layout {
    #[verifier::type_invariant]
    spec fn positive_cells(self) -> bool {
        self.grid_size.0 > 0 && self.grid_size.1 > 0
    }

    /// A layout with world origin `wo`, grid origin `go` and cells `w` wide
    /// and `h` high.
    pub fn new(wo: Vector, go: Vertex, w: u32, h: u32) -> (l: Layout)
        requires
            w > 0,
            h > 0,
        ensures
            l@ == (Frame {
                world_origin: wo@,
                grid_origin: go.pos@,
                cell_width: w as int,
                cell_height: h as int,
            }),
    {
        Layout { world_origin: wo, grid_origin: go, grid_size: (w, h) }
    }

    /// The width and the height of a cell, each at least one world unit.
    pub fn cell_size(&self) -> (r: (u32, u32))
        ensures
            r.0 == self@.cell_width,
            r.1 == self@.cell_height,
            r.0 > 0,
            r.1 > 0,
    {
        proof {
            use_type_invariant(self);
        }
        self.grid_size
    }

    /// The point `p` as seen from the world origin. The difference of two
    /// `i32` needs more than an `i32`.
    fn normalize_world_coord(&self, p: Point) -> (n: (i64, i64))
        ensures
            n.0 == self@.normalize(p@).x,
            n.1 == self@.normalize(p@).y,
    {
        (p.x as i64 - self.world_origin.x as i64, p.y as i64 - self.world_origin.y as i64)
    }

    /// The index of the cell that holds the normalized coordinate `n`,
    /// counted in cells of `size` world units from the world origin.
    fn cell_index(n: i64, size: u32) -> (i: i64)
        requires
            size > 0,
            -0x1_0000_0000 <= n <= 0x1_0000_0000,
        ensures
            i == (n as int) / (size as int),
            -0x1_0000_0000 <= i <= 0x1_0000_0000,
    {
        assert(-0x1_0000_0000 <= (n as int) / (size as int) <= 0x1_0000_0000) by (nonlinear_arith)
            requires
                size > 0,
                -0x1_0000_0000 <= n <= 0x1_0000_0000,
        ;
        n.checked_div_euclid(size as i64).unwrap()
    }

    /// The tile that holds the world point `p`.
    pub fn world2tile(&self, p: Point) -> (s: Tile)
        requires
            self@.surface_at(p@).fits(),
        ensures
            s@ == Element::Surface(self@.surface_at(p@)),
    {
        let n = self.normalize_world_coord(p);
        let (w, h) = self.cell_size();
        let x: i64 = Layout::cell_index(n.0, w) - self.grid_origin.pos.x as i64;
        let y: i64 = Layout::cell_index(n.1, h) - self.grid_origin.pos.y as i64;
        Tile::new(x as i32, y as i32)
    }

    /// The world coordinate of a lattice line `steps` cells of `size` world
    /// units from the one through `origin`.
    fn world_coordinate(steps: i64, size: u32, origin: i32) -> (c: i128)
        requires
            -0x1_0000_0000 <= steps <= 0x1_0000_0000,
        ensures
            c == steps * size + origin,
    {
        assert(-0x1_0000_0000 * 0x1_0000_0000 <= steps * size <= 0x1_0000_0000 * 0x1_0000_0000)
            by (nonlinear_arith)
            requires
                -0x1_0000_0000 <= steps <= 0x1_0000_0000,
                0 <= size <= 0x1_0000_0000,
        ;
        steps as i128 * size as i128 + origin as i128
    }

    /// The world point of the vertex `v`.
    pub fn vertex2world(&self, v: Vertex) -> (p: Point)
        requires
            self@.world_of(v@.position()).fits(),
        ensures
            p@ == self@.world_of(v@.position()),
    {
        let dx: i64 = v.pos.x as i64 - self.grid_origin.pos.x as i64;
        let dy: i64 = v.pos.y as i64 - self.grid_origin.pos.y as i64;
        let x: i128 = Layout::world_coordinate(dx, self.grid_size.0, self.world_origin.x);
        let y: i128 = Layout::world_coordinate(dy, self.grid_size.1, self.world_origin.y);
        Point::new(x as i32, y as i32)
    }

    /// The box that the tile `s` takes up in world space: the world point of
    /// its north-west corner, then its width and its height.
    pub fn bounding_box_of(&self, s: Tile) -> (r: (i32, i32, u32, u32))
        requires
            self@.world_of(s@.position()).fits(),
        ensures
            r.0 == self@.world_of(s@.position()).x,
            r.1 == self@.world_of(s@.position()).y,
            r.2 == self@.cell_width,
            r.3 == self@.cell_height,
    {
        let tl = self.vertex2world(s.adjacent_vertex(Direction::NW));
        (tl.x, tl.y, self.grid_size.0, self.grid_size.1)
    }
}

/// Every world point in the box of the surface at `s` is held by the surface
/// that lies twice the grid origin before `s`: `world_of` and `surface_at`
/// both take the grid origin off. With the grid origin at the lattice origin
/// the two undo each other, up to the rounding: each point of a box is held
/// by the surface whose box it is.
pub proof fn lemma_box_is_held_by_surface(f: Frame, s: Coord, p: WorldCoord)
    requires
        f.wf(),
        f.in_box_of(s, p),
    ensures
        f.surface_at(p) == (Coord {
            x: s.x - 2 * f.grid_origin.x,
            y: s.y - 2 * f.grid_origin.y,
        }),
        f.grid_origin == (Coord { x: 0, y: 0 }) ==> f.surface_at(p) == s,
{
    lemma_floor_of_cell(s.x - f.grid_origin.x, f.cell_width, p.x - f.world_origin.x);
    lemma_floor_of_cell(s.y - f.grid_origin.y, f.cell_height, p.y - f.world_origin.y);
}

/// A coordinate from `k` cells of `size` on, and less than one cell further,
/// divides to `k`.
proof fn lemma_floor_of_cell(k: int, size: int, n: int)
    by (nonlinear_arith)
    requires
        size > 0,
        k * size <= n < k * size + size,
    ensures
        n / size == k,
{
}

} // verus!
