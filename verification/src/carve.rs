//! Hexagon carving: given an interior face vertex, mark it Face, its six
//! neighbor vertices Intersection, the six edges inside the hexagon Invalid,
//! and the six perimeter edges Valid.

use vstd::prelude::*;
use crate::board::{Board, Edge, EdgeKind, Vertex, VertexKind};
use crate::geometry::{
    get_neighbor_edges, get_neighbor_vertices, get_perimeter_edges, is_interior,
    lemma_interior_facts, lemma_neighbor_perimeter_edges_distinct, spec_east_perimeter,
    spec_neighbor_edge_seq, spec_north_edge, spec_north_vertex, spec_northeast_edge,
    spec_northeast_perimeter, spec_northeast_vertex, spec_northwest_edge,
    spec_northwest_perimeter, spec_northwest_vertex, spec_perimeter_edge_seq, spec_south_edge,
    spec_south_vertex, spec_southeast_edge, spec_southeast_perimeter, spec_southeast_vertex,
    spec_southwest_edge, spec_southwest_perimeter, spec_southwest_vertex, spec_west_perimeter,
};

verus! {

/// Whether i is one of the six neighbor vertices of v.
pub open spec fn is_neighbor_vertex_of(i: int, v: int, width: int) -> bool {
    ||| i == spec_north_vertex(v, width)
    ||| i == spec_northeast_vertex(v, width)
    ||| i == spec_southeast_vertex(v)
    ||| i == spec_south_vertex(v, width)
    ||| i == spec_southwest_vertex(v, width)
    ||| i == spec_northwest_vertex(v)
}

/// Whether i is one of the six neighbor edges of v (the spokes of its hexagon).
pub open spec fn is_neighbor_edge_of(i: int, v: int, height: int, width: int) -> bool {
    ||| i == spec_north_edge(v, width)
    ||| i == spec_northeast_edge(v, height, width)
    ||| i == spec_southeast_edge(v, height, width)
    ||| i == spec_south_edge(v, width)
    ||| i == spec_southwest_edge(v, height, width)
    ||| i == spec_northwest_edge(v, height, width)
}

/// Whether i is one of the six perimeter edges of the hexagon centered on v.
pub open spec fn is_perimeter_edge_of(i: int, v: int, height: int, width: int) -> bool {
    ||| i == spec_northeast_perimeter(v, height, width)
    ||| i == spec_east_perimeter(v, width)
    ||| i == spec_southeast_perimeter(v, height, width)
    ||| i == spec_southwest_perimeter(v, height, width)
    ||| i == spec_west_perimeter(v, width)
    ||| i == spec_northwest_perimeter(v, height, width)
}

/// The vertex array after carving the hexagon centered on v: the face vertex
/// becomes Face, its six neighbors become Intersection, everything else keeps
/// its value.
pub open spec fn carve_vertices(vertices: Seq<Vertex>, v: int, width: int) -> Seq<Vertex> {
    Seq::new(
        vertices.len(),
        |i: int|
            if i == v {
                (Vertex { kind: VertexKind::Face, ..vertices[i] })
            } else if is_neighbor_vertex_of(i, v, width) {
                (Vertex { kind: VertexKind::Intersection, ..vertices[i] })
            } else {
                vertices[i]
            },
    )
}

/// The edge array after carving the hexagon centered on v: the six perimeter
/// edges become Valid, the six interior spokes become Invalid, everything else
/// keeps its value. For an interior v the two sets are disjoint.
pub open spec fn carve_edges(edges: Seq<Edge>, v: int, height: int, width: int) -> Seq<Edge> {
    Seq::new(
        edges.len(),
        |i: int|
            if is_perimeter_edge_of(i, v, height, width) {
                (Edge { kind: EdgeKind::Valid, ..edges[i] })
            } else if is_neighbor_edge_of(i, v, height, width) {
                (Edge { kind: EdgeKind::Invalid, ..edges[i] })
            } else {
                edges[i]
            },
    )
}

/// Make a hexagon centered on the given interior vertex: the vertex becomes a
/// Face, its six neighbor vertices become Intersections, the six edges inside
/// the hexagon become Invalid, and the six perimeter edges become Valid.
/// Nothing else on the board changes.
///
/// The boundary policy is to reject out-of-range carving: the vertex must be
/// interior (no margin rows or columns are reserved in the rhombus), since on
/// a boundary vertex the neighbor formulas would leave the arrays. A vertex or
/// edge revisited by a later carving call is simply overwritten: the last
/// write wins.
#[verifier::rlimit(100)]
#[verifier::spinoff_prover]
pub fn make_hexagon(vertex_index: usize, board: &mut Board)
    requires
        old(board).wf(),
        is_interior(vertex_index as int, old(board).height as int, old(board).width as int),
    ensures
        final(board).wf(),
        final(board).width == old(board).width,
        final(board).height == old(board).height,
        final(board).vertices_size == old(board).vertices_size,
        final(board).vertical_edges_size == old(board).vertical_edges_size,
        final(board).right_diagonal_edges_size == old(board).right_diagonal_edges_size,
        final(board).left_diagonal_edges_size == old(board).left_diagonal_edges_size,
        final(board).edges_size == old(board).edges_size,
        final(board).vertices@ == carve_vertices(
            old(board).vertices@,
            vertex_index as int,
            old(board).width as int,
        ),
        final(board).edges@ == carve_edges(
            old(board).edges@,
            vertex_index as int,
            old(board).height as int,
            old(board).width as int,
        ),
        final(board).vertices@[vertex_index as int].kind == VertexKind::Face,
        forall|i: int|
            #[trigger] is_neighbor_vertex_of(i, vertex_index as int, old(board).width as int)
                ==> final(board).vertices@[i].kind == VertexKind::Intersection,
        forall|i: int|
            #[trigger] is_neighbor_edge_of(
                i,
                vertex_index as int,
                old(board).height as int,
                old(board).width as int,
            ) ==> final(board).edges@[i].kind == EdgeKind::Invalid,
        forall|i: int|
            #[trigger] is_perimeter_edge_of(
                i,
                vertex_index as int,
                old(board).height as int,
                old(board).width as int,
            ) ==> final(board).edges@[i].kind == EdgeKind::Valid,
{
    let ghost v0 = vertex_index as int;
    let ghost h0 = board.height as int;
    let ghost w0 = board.width as int;
    proof {
        lemma_interior_facts(v0, h0, w0);
        lemma_neighbor_perimeter_edges_distinct(v0, h0, w0);
        let ns = spec_neighbor_edge_seq(v0, h0, w0);
        let ps = spec_perimeter_edge_seq(v0, h0, w0);
        assert(ns[0] == spec_north_edge(v0, w0));
        assert(ns[1] == spec_northeast_edge(v0, h0, w0));
        assert(ns[2] == spec_southeast_edge(v0, h0, w0));
        assert(ns[3] == spec_south_edge(v0, w0));
        assert(ns[4] == spec_southwest_edge(v0, h0, w0));
        assert(ns[5] == spec_northwest_edge(v0, h0, w0));
        assert(ps[0] == spec_northeast_perimeter(v0, h0, w0));
        assert(ps[1] == spec_east_perimeter(v0, w0));
        assert(ps[2] == spec_southeast_perimeter(v0, h0, w0));
        assert(ps[3] == spec_southwest_perimeter(v0, h0, w0));
        assert(ps[4] == spec_west_perimeter(v0, w0));
        assert(ps[5] == spec_northwest_perimeter(v0, h0, w0));
    }
    let vx = board.vertices[vertex_index];
    board.vertices[vertex_index] = Vertex { kind: VertexKind::Face, ..vx };
    // Make each neighbor vertex a valid intersection.
    let neighbor_vertex_indices = get_neighbor_vertices(vertex_index, board);
    let n0 = neighbor_vertex_indices[0];
    let vx0 = board.vertices[n0];
    board.vertices[n0] = Vertex { kind: VertexKind::Intersection, ..vx0 };
    let n1 = neighbor_vertex_indices[1];
    let vx1 = board.vertices[n1];
    board.vertices[n1] = Vertex { kind: VertexKind::Intersection, ..vx1 };
    let n2 = neighbor_vertex_indices[2];
    let vx2 = board.vertices[n2];
    board.vertices[n2] = Vertex { kind: VertexKind::Intersection, ..vx2 };
    let n3 = neighbor_vertex_indices[3];
    let vx3 = board.vertices[n3];
    board.vertices[n3] = Vertex { kind: VertexKind::Intersection, ..vx3 };
    let n4 = neighbor_vertex_indices[4];
    let vx4 = board.vertices[n4];
    board.vertices[n4] = Vertex { kind: VertexKind::Intersection, ..vx4 };
    let n5 = neighbor_vertex_indices[5];
    let vx5 = board.vertices[n5];
    board.vertices[n5] = Vertex { kind: VertexKind::Intersection, ..vx5 };
    proof {
        assert forall|i: int| 0 <= i < board.vertices@.len() implies board.vertices@[i]
            == carve_vertices(old(board).vertices@, v0, w0)[i] by {}
        assert(board.vertices@ =~= carve_vertices(old(board).vertices@, v0, w0));
    }
    // The edges inside the hexagon are unusable byproducts of the triangulation.
    let neighbor_edge_indices = get_neighbor_edges(vertex_index, board);
    let e0 = neighbor_edge_indices[0];
    let ex0 = board.edges[e0];
    board.edges[e0] = Edge { kind: EdgeKind::Invalid, ..ex0 };
    let e1 = neighbor_edge_indices[1];
    let ex1 = board.edges[e1];
    board.edges[e1] = Edge { kind: EdgeKind::Invalid, ..ex1 };
    let e2 = neighbor_edge_indices[2];
    let ex2 = board.edges[e2];
    board.edges[e2] = Edge { kind: EdgeKind::Invalid, ..ex2 };
    let e3 = neighbor_edge_indices[3];
    let ex3 = board.edges[e3];
    board.edges[e3] = Edge { kind: EdgeKind::Invalid, ..ex3 };
    let e4 = neighbor_edge_indices[4];
    let ex4 = board.edges[e4];
    board.edges[e4] = Edge { kind: EdgeKind::Invalid, ..ex4 };
    let e5 = neighbor_edge_indices[5];
    let ex5 = board.edges[e5];
    board.edges[e5] = Edge { kind: EdgeKind::Invalid, ..ex5 };
    // The perimeter edges can carry roads.
    let perimeter_edge_indices = get_perimeter_edges(vertex_index, board);
    let p0 = perimeter_edge_indices[0];
    let px0 = board.edges[p0];
    board.edges[p0] = Edge { kind: EdgeKind::Valid, ..px0 };
    let p1 = perimeter_edge_indices[1];
    let px1 = board.edges[p1];
    board.edges[p1] = Edge { kind: EdgeKind::Valid, ..px1 };
    let p2 = perimeter_edge_indices[2];
    let px2 = board.edges[p2];
    board.edges[p2] = Edge { kind: EdgeKind::Valid, ..px2 };
    let p3 = perimeter_edge_indices[3];
    let px3 = board.edges[p3];
    board.edges[p3] = Edge { kind: EdgeKind::Valid, ..px3 };
    let p4 = perimeter_edge_indices[4];
    let px4 = board.edges[p4];
    board.edges[p4] = Edge { kind: EdgeKind::Valid, ..px4 };
    let p5 = perimeter_edge_indices[5];
    let px5 = board.edges[p5];
    board.edges[p5] = Edge { kind: EdgeKind::Valid, ..px5 };
    proof {
        assert forall|i: int| 0 <= i < board.edges@.len() implies board.edges@[i]
            == carve_edges(old(board).edges@, v0, h0, w0)[i] by {}
        assert(board.edges@ =~= carve_edges(old(board).edges@, v0, h0, w0));
    }
}

/// Carving a hexagon is idempotent: carving the same face vertex a second
/// time, with no intervening carving, leaves both the vertex array and the
/// edge array exactly as one carving left them.
pub proof fn lemma_carve_idempotent(
    vertices: Seq<Vertex>,
    edges: Seq<Edge>,
    v: int,
    height: int,
    width: int,
)
    requires
        0 < width,
        0 < height,
        is_interior(v, height, width),
    ensures
        carve_vertices(carve_vertices(vertices, v, width), v, width) == carve_vertices(
            vertices,
            v,
            width,
        ),
        carve_edges(carve_edges(edges, v, height, width), v, height, width) == carve_edges(
            edges,
            v,
            height,
            width,
        ),
{
    let vs1 = carve_vertices(vertices, v, width);
    assert forall|i: int| 0 <= i < vs1.len() implies carve_vertices(vs1, v, width)[i]
        == vs1[i] by {}
    assert(carve_vertices(vs1, v, width) =~= vs1);
    let es1 = carve_edges(edges, v, height, width);
    assert forall|i: int| 0 <= i < es1.len() implies carve_edges(es1, v, height, width)[i]
        == es1[i] by {}
    assert(carve_edges(es1, v, height, width) =~= es1);
}

} // verus!
