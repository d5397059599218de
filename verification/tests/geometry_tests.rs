use settlers::{
    get_east_face, get_east_perimeter, get_north_edge, get_north_vertex, get_northeast_edge,
    get_northeast_face, get_northeast_perimeter, get_northeast_vertex, get_northwest_edge,
    get_northwest_perimeter, get_northwest_vertex, get_south_edge, get_south_vertex,
    get_southeast_edge, get_southeast_perimeter, get_southeast_vertex, get_southwest_edge,
    get_southwest_perimeter, get_southwest_vertex, get_vertex_from_hex, get_west_perimeter,
    make_board, Board,
};

#[test]
fn test_get_north_vertex() {
    let board: Board = make_board(10, 10);
    assert_eq!(1, get_north_vertex(11, &board));
}

#[test]
fn test_get_northeast_vertex() {
    let board: Board = make_board(4, 4);
    assert_eq!(2, get_northeast_vertex(5, &board));
}

#[test]
fn test_get_southeast_vertex() {
    let board: Board = make_board(4, 4);
    assert_eq!(6, get_southeast_vertex(5, &board));
}

#[test]
fn test_get_south_vertex() {
    let board: Board = make_board(4, 4);
    assert_eq!(9, get_south_vertex(5, &board));
}

#[test]
fn test_get_southwest_vertex() {
    let board: Board = make_board(4, 4);
    assert_eq!(8, get_southwest_vertex(5, &board));
}

#[test]
fn test_get_northwest_vertex() {
    let board: Board = make_board(4, 4);
    assert_eq!(4, get_northwest_vertex(5, &board));
}

#[test]
fn test_get_north_edge() {
    let board = make_board(4, 4);
    assert_eq!(1, get_north_edge(5, &board));
}

#[test]
fn test_get_northeast_edge() {
    let board = make_board(4, 4);
    assert_eq!(25, get_northeast_edge(5, &board));
}

#[test]
fn test_get_southeast_edge() {
    let board = make_board(4, 4);
    assert_eq!(16, get_southeast_edge(5, &board));
}

#[test]
fn test_get_south_edge() {
    let board = make_board(4, 4);
    assert_eq!(5, get_south_edge(5, &board));
}

#[test]
fn test_get_southwest_edge() {
    let board = make_board(4, 4);
    assert_eq!(27, get_southwest_edge(5, &board));
}

#[test]
fn test_get_northwest_edge() {
    let board = make_board(4, 4);
    assert_eq!(15, get_northwest_edge(5, &board));
}

#[test]
fn test_get_northeast_perimeter() {
    let board = make_board(4, 4);
    assert_eq!(13, get_northeast_perimeter(5, &board));
}

#[test]
fn test_get_east_perimeter() {
    let board = make_board(4, 4);
    assert_eq!(2, get_east_perimeter(5, &board));
}

#[test]
fn test_get_southeast_perimeter() {
    let board = make_board(4, 4);
    assert_eq!(28, get_southeast_perimeter(5, &board));
}

#[test]
fn test_get_southwest_perimeter() {
    let board = make_board(4, 4);
    assert_eq!(18, get_southwest_perimeter(5, &board));
}

#[test]
fn test_get_west_perimeter() {
    let board = make_board(4, 4);
    assert_eq!(4, get_west_perimeter(5, &board));
}

#[test]
fn test_get_northwest_perimeter() {
    let board = make_board(4, 4);
    assert_eq!(24, get_northwest_perimeter(5, &board));
}

#[test]
fn test_get_northeast_face() {
    let board = make_board(4, 4);
    assert_eq!(2, get_northeast_face(9, &board));
}

#[test]
fn test_get_east_face() {
    let board = make_board(4, 4);
    assert_eq!(3, get_east_face(5, &board));
}

#[test]
fn test_get_vertex_from_hex() {
    let board = make_board(10, 10);
    assert_eq!(11, get_vertex_from_hex(0, 0, &board));
    assert_eq!(3, get_vertex_from_hex(0, 1, &board));
    assert_eq!(22, get_vertex_from_hex(1, 0, &board));
    assert_eq!(14, get_vertex_from_hex(1, 1, &board));
    assert_eq!(41, get_vertex_from_hex(2, 0, &board));
    assert_eq!(33, get_vertex_from_hex(2, 1, &board));
    assert_eq!(25, get_vertex_from_hex(2, 2, &board));
}
