use lattice::{
    adjacent_edge, adjacent_surface, neighbor, Direction, EdgeType, GridElement, Layout, Point,
    Position, Tile, Vector, Vertex,
};

fn layout() -> Layout {
    Layout::new(Vector::new(13, 2), Vertex::new(2, 0), 10, 10)
}

#[test]
fn a_world_point_is_in_its_surface() {
    assert_eq!(layout().world2tile(Point::new(45, 33)), Tile::new(1, 3));
}

#[test]
fn a_vertex_has_its_world_point() {
    assert_eq!(layout().vertex2world(Vertex::new(6, 7)), Point::new(53, 72));
}

#[test]
fn a_surface_has_its_bounding_box() {
    assert_eq!(layout().bounding_box_of(Tile::new(3, 4)), (23, 42, 10, 10));
}

#[test]
fn the_surfaces_at_a_vertex() {
    let v = GridElement::Vertex(Position::new(0, -1));
    assert_eq!(
        adjacent_surface(v, Direction::SE),
        Some(GridElement::Surface(Position::new(0, -1)))
    );
    assert_eq!(
        adjacent_surface(v, Direction::NW),
        Some(GridElement::Surface(Position::new(-1, -2)))
    );
    assert_eq!(
        adjacent_surface(v, Direction::SW),
        Some(GridElement::Surface(Position::new(-1, -1)))
    );
    assert_eq!(
        adjacent_surface(v, Direction::NE),
        Some(GridElement::Surface(Position::new(0, -2)))
    );
}

#[test]
fn the_edges_at_a_vertex_and_round_a_surface() {
    assert_eq!(
        adjacent_edge(GridElement::Vertex(Position::new(-1, 0)), Direction::North),
        Some(GridElement::Edge(Position::new(-1, -1), EdgeType::Vertical))
    );
    assert_eq!(
        adjacent_edge(GridElement::Surface(Position::new(-1, 1)), Direction::East),
        Some(GridElement::Edge(Position::new(0, 1), EdgeType::Vertical))
    );
}

#[test]
fn an_edge_pivots_on_a_diagonal() {
    assert_eq!(
        neighbor(GridElement::Edge(Position::new(1, 0), EdgeType::Vertical), Direction::SW),
        GridElement::Edge(Position::new(0, 1), EdgeType::Horizontal)
    );
}
