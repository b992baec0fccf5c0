use lattice::{
    adjacent_edge, adjacent_surface, adjacent_vertex, neighbor, Direction, EdgeType,
    Location, Position, PositionDelta,
};

#[test]
fn location_test_distance_to() {
    let pm = Position::new(5, 8);
    let pn = Position::new(2, 9);
    assert_eq!(pn.distance_to(pm), PositionDelta::new(-3, 1));
}

#[test]
#[allow(unused_variables)]
fn location_test_neighbor() {
    let p1 = Position::new(-1, -1);
    let p2 = Position::new( 0, -1);
    let p3 = Position::new( 1, -1);
    let p4 = Position::new(-1,  0);
    let p5 = Position::new( 0,  0);
    let p6 = Position::new( 1,  0);
    let p7 = Position::new(-1,  1);
    let p8 = Position::new( 0,  1);
    let p9 = Position::new( 1,  1);

    assert_eq!(Location::Surface(p4), neighbor(Location::Surface(p8), Direction::NW));
    assert_eq!(Location::Surface(p5), neighbor(Location::Surface(p2), Direction::South));
    assert_eq!(Location::Vertex(p7), neighbor(Location::Vertex(p8), Direction::West));
    assert_eq!(Location::Vertex(p3), neighbor(Location::Vertex(p5), Direction::NE));
    assert_eq!(Location::Edge(p8, EdgeType::Horizontal), neighbor(Location::Edge(p6, EdgeType::Vertical), Direction::SW));
    assert_eq!(Location::Edge(p2, EdgeType::Vertical), neighbor(Location::Edge(p1, EdgeType::Horizontal), Direction::SE));
    assert_eq!(Location::Edge(p9, EdgeType::Horizontal), neighbor(Location::Edge(p6, EdgeType::Horizontal), Direction::South));
}

#[test]
#[allow(unused_variables)]
fn location_test_adjcent_surface() {
    let p1 = Position::new(-1, -1);
    let p2 = Position::new( 0, -1);
    let p3 = Position::new( 1, -1);
    let p4 = Position::new(-1,  0);
    let p5 = Position::new( 0,  0);
    let p6 = Position::new( 1,  0);
    let p7 = Position::new(-1,  1);
    let p8 = Position::new( 0,  1);
    let p9 = Position::new( 1,  1);

    assert_eq!(Location::Surface(p3), adjacent_surface(Location::Surface(p2), Direction::East).unwrap());
    assert_eq!(Location::Surface(p4), adjacent_surface(Location::Surface(p2), Direction::SW).unwrap());
    assert_eq!(Location::Surface(p1), adjacent_surface(Location::Edge(p4, EdgeType::Horizontal), Direction::North).unwrap());
    assert_eq!(Location::Surface(p5), adjacent_surface(Location::Vertex(p9), Direction::NW).unwrap());
    assert_eq!(Location::Surface(p7), adjacent_surface(Location::Vertex(p8), Direction::SW).unwrap());
    assert_eq!(Location::Surface(p6), adjacent_surface(Location::Edge(p6, EdgeType::Vertical), Direction::East).unwrap());
}

#[test]
#[allow(unused_variables)]
fn location_test_adjcent_edge() {
    let p1 = Position::new(-1, -1);
    let p2 = Position::new( 0, -1);
    let p3 = Position::new( 1, -1);
    let p4 = Position::new(-1,  0);
    let p5 = Position::new( 0,  0);
    let p6 = Position::new( 1,  0);
    let p7 = Position::new(-1,  1);
    let p8 = Position::new( 0,  1);
    let p9 = Position::new( 1,  1);

    assert_eq!(Location::Edge(p1, EdgeType::Vertical), adjacent_edge(Location::Vertex(p4), Direction::North).unwrap());
    assert_eq!(Location::Edge(p2, EdgeType::Horizontal), adjacent_edge(Location::Edge(p3, EdgeType::Horizontal), Direction::West).unwrap());
    assert_eq!(Location::Edge(p5, EdgeType::Horizontal), adjacent_edge(Location::Vertex(p6), Direction::West).unwrap());
    assert_eq!(Location::Edge(p8, EdgeType::Vertical), adjacent_edge(Location::Surface(p7), Direction::East).unwrap());
    assert_eq!(Location::Edge(p9, EdgeType::Horizontal), adjacent_edge(Location::Surface(p6), Direction::South).unwrap());
}

#[test]
#[allow(unused_variables)]
fn location_test_adjcent_vertex() {
    let p1 = Position::new(-1, -1);
    let p2 = Position::new( 0, -1);
    let p3 = Position::new( 1, -1);
    let p4 = Position::new(-1,  0);
    let p5 = Position::new( 0,  0);
    let p6 = Position::new( 1,  0);
    let p7 = Position::new(-1,  1);
    let p8 = Position::new( 0,  1);
    let p9 = Position::new( 1,  1);

    assert_eq!(Location::Vertex(p4), adjacent_vertex(Location::Edge(p1, EdgeType::Vertical), Direction::South).unwrap());
    assert_eq!(Location::Vertex(p3), adjacent_vertex(Location::Surface(p2), Direction::NE).unwrap());
    assert_eq!(Location::Vertex(p9), adjacent_vertex(Location::Surface(p6), Direction::SW).unwrap());
    assert_eq!(Location::Vertex(p8), adjacent_vertex(Location::Edge(p7, EdgeType::Horizontal), Direction::East).unwrap());
    assert_eq!(Location::Vertex(p5), adjacent_vertex(Location::Surface(p5), Direction::NW).unwrap());
}
