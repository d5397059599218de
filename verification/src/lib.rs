//! Topology of a hexagonal game board, represented internally as a
//! triangulated rhombus: a dense rectangular array of vertices and a dense
//! array of edges, from which hexagon faces, intersections, and roads are
//! carved out by marking subsets as valid.

pub mod board;
pub mod carve;
pub mod geometry;

pub use crate::carve::make_hexagon;
pub use crate::geometry::{
    get_column, get_east_face, get_east_perimeter, get_neighbor_edges, get_neighbor_vertices,
    get_north_edge, get_north_vertex, get_northeast_edge, get_northeast_face,
    get_northeast_perimeter, get_northeast_vertex, get_northwest_edge, get_northwest_perimeter,
    get_northwest_vertex, get_perimeter_edges, get_row, get_south_edge, get_south_vertex,
    get_southeast_edge, get_southeast_perimeter, get_southeast_vertex, get_southwest_edge,
    get_southwest_perimeter, get_southwest_vertex, get_vertex_from_hex, get_west_perimeter,
};
pub use crate::board::{
    Board, Edge, EdgeKind, Harbor, Vertex, VertexKind, default_edge, default_harbor,
    default_vertex, make_board,
};
