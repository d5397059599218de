use settlers::{
    get_column, get_neighbor_edges, get_neighbor_vertices, get_north_vertex,
    get_northeast_vertex, get_perimeter_edges, get_row, get_south_vertex, get_southeast_vertex,
    get_southwest_vertex, get_northwest_vertex, make_board, make_hexagon, Board, EdgeKind,
    VertexKind,
};

#[test]
fn test_make_board_sizes() {
    let board: Board = make_board(4, 4);
    assert_eq!(16, board.vertices.len());
    assert_eq!(12, board.vertical_edges_size);
    assert_eq!(12, board.right_diagonal_edges_size);
    assert_eq!(9, board.left_diagonal_edges_size);
    assert_eq!(
        board.vertical_edges_size + board.right_diagonal_edges_size
            + board.left_diagonal_edges_size,
        board.edges.len()
    );
    assert_eq!(33, board.edges.len());

    let board: Board = make_board(10, 10);
    assert_eq!(100, board.vertices.len());
    assert_eq!(
        board.vertical_edges_size + board.right_diagonal_edges_size
            + board.left_diagonal_edges_size,
        board.edges.len()
    );
    assert_eq!(261, board.edges.len());
}

#[test]
fn test_make_board_smallest() {
    let board: Board = make_board(1, 1);
    assert_eq!(1, board.vertices.len());
    assert_eq!(0, board.edges.len());

    let board: Board = make_board(2, 2);
    assert_eq!(4, board.vertices.len());
    assert_eq!(2, board.vertical_edges_size);
    assert_eq!(2, board.right_diagonal_edges_size);
    assert_eq!(1, board.left_diagonal_edges_size);
    assert_eq!(5, board.edges.len());
}

#[test]
fn test_make_board_defaults() {
    let board: Board = make_board(4, 4);
    for vertex in &board.vertices {
        assert_eq!(VertexKind::Invalid, vertex.kind);
        assert_eq!(0, vertex.resource);
        assert_eq!(0, vertex.robber);
    }
    for edge in &board.edges {
        assert_eq!(EdgeKind::Invalid, edge.kind);
        assert_eq!(0, edge.road_color);
        assert_eq!(0, edge.harbor.input_resource);
    }
}

#[test]
fn test_get_row_and_column() {
    assert_eq!(1, get_row(5, 4));
    assert_eq!(1, get_column(5, 4));
    assert_eq!(2, get_row(22, 10));
    assert_eq!(2, get_column(22, 10));
    assert_eq!(0, get_row(3, 4));
    assert_eq!(3, get_column(3, 4));
}

#[test]
fn test_get_neighbor_vertices_order() {
    let board = make_board(4, 4);
    assert_eq!([1, 2, 6, 9, 8, 4], get_neighbor_vertices(5, &board));
}

#[test]
fn test_get_neighbor_edges_order() {
    let board = make_board(4, 4);
    assert_eq!([1, 25, 16, 5, 27, 15], get_neighbor_edges(5, &board));
}

#[test]
fn test_get_perimeter_edges_order() {
    let board = make_board(4, 4);
    assert_eq!([13, 2, 28, 18, 4, 24], get_perimeter_edges(5, &board));
}

#[test]
fn test_direction_pairs_inverse_samples() {
    let board = make_board(10, 10);
    for v in [11usize, 22, 33, 47, 88] {
        assert_eq!(v, get_north_vertex(get_south_vertex(v, &board), &board));
        assert_eq!(v, get_northeast_vertex(get_southwest_vertex(v, &board), &board));
        assert_eq!(v, get_southeast_vertex(get_northwest_vertex(v, &board), &board));
    }
}

#[test]
fn test_neighbor_and_perimeter_edges_distinct() {
    let board = make_board(4, 4);
    let neighbors = get_neighbor_edges(5, &board);
    let perimeter = get_perimeter_edges(5, &board);
    for i in 0..6 {
        for j in 0..6 {
            if i < j {
                assert_ne!(neighbors[i], neighbors[j]);
            }
            assert_ne!(neighbors[i], perimeter[j]);
        }
    }
}

#[test]
fn test_make_hexagon_marks() {
    let mut board = make_board(4, 4);
    make_hexagon(5, &mut board);
    assert_eq!(VertexKind::Face, board.vertices[5].kind);
    for v in [1usize, 2, 6, 9, 8, 4] {
        assert_eq!(VertexKind::Intersection, board.vertices[v].kind);
    }
    for v in [0usize, 3, 7, 10, 11, 12, 13, 14, 15] {
        assert_eq!(VertexKind::Invalid, board.vertices[v].kind);
    }
    for e in [1usize, 25, 16, 5, 27, 15] {
        assert_eq!(EdgeKind::Invalid, board.edges[e].kind);
    }
    for e in [13usize, 2, 28, 18, 4, 24] {
        assert_eq!(EdgeKind::Valid, board.edges[e].kind);
    }
}

#[test]
fn test_make_hexagon_keeps_placeholders() {
    let mut board = make_board(4, 4);
    board.vertices[5].resource = 7;
    board.vertices[1].building_color = 3;
    board.edges[13].road_color = 2;
    make_hexagon(5, &mut board);
    assert_eq!(7, board.vertices[5].resource);
    assert_eq!(3, board.vertices[1].building_color);
    assert_eq!(2, board.edges[13].road_color);
}

#[test]
fn test_make_hexagon_idempotent() {
    let mut board = make_board(10, 10);
    make_hexagon(22, &mut board);
    let vertex_kinds: Vec<VertexKind> = board.vertices.iter().map(|v| v.kind).collect();
    let edge_kinds: Vec<EdgeKind> = board.edges.iter().map(|e| e.kind).collect();
    make_hexagon(22, &mut board);
    let vertex_kinds_again: Vec<VertexKind> = board.vertices.iter().map(|v| v.kind).collect();
    let edge_kinds_again: Vec<EdgeKind> = board.edges.iter().map(|e| e.kind).collect();
    assert_eq!(vertex_kinds, vertex_kinds_again);
    assert_eq!(edge_kinds, edge_kinds_again);
}

#[test]
fn test_two_adjacent_hexagons() {
    let mut board = make_board(10, 10);
    let east_of_22 = settlers::get_east_face(22, &board);
    assert_eq!(14, east_of_22);
    make_hexagon(22, &mut board);
    make_hexagon(east_of_22, &mut board);
    assert_eq!(VertexKind::Face, board.vertices[22].kind);
    assert_eq!(VertexKind::Face, board.vertices[14].kind);
    // The corners shared by the two hexagons stay intersections.
    assert_eq!(VertexKind::Intersection, board.vertices[13].kind);
    assert_eq!(VertexKind::Intersection, board.vertices[23].kind);
}
