//! The board: a rhombus-shaped grid of triangles holding the vertex and edge
//! arrays, with the three edge-space sizes cached at construction.
//!
//! Vertices are stored row-major: the vertex at (row, column) has linear index
//! `row * width + column`. Edges are stored as three contiguous ranges, in
//! order: vertical edges, right-diagonal edges, left-diagonal edges.

use vstd::prelude::*;

verus! {

/// The kinds of vertices.
/// Invalid means the vertex is not used.
/// Intersection means settlements and cities can be built on it.
/// Face means it has a resource, and a robber can be put on it.
#[derive(Clone, Copy, Debug, PartialEq, Eq, Structural)]
pub enum VertexKind {
    Invalid,
    Intersection,
    Face,
}

impl Default for VertexKind {
    fn default() -> (kind: VertexKind)
        ensures
            kind == VertexKind::Invalid,
    {
        VertexKind::Invalid
    }
}

/// The kinds of edges.
/// Invalid means the edge is not used.
/// Valid means roads can be built on it.
#[derive(Clone, Copy, Debug, PartialEq, Eq, Structural)]
pub enum EdgeKind {
    Invalid,
    Valid,
}

impl Default for EdgeKind {
    fn default() -> (kind: EdgeKind)
        ensures
            kind == EdgeKind::Invalid,
    {
        EdgeKind::Invalid
    }
}

/// A position in the rhombus grid, with its game-state placeholders.
#[derive(Clone, Copy, Debug)]
pub struct Vertex {
    pub resource: i32,
    pub resource_number: i32,
    pub building_color: i32,
    pub building_type: i32,
    pub robber: i32,
    pub kind: VertexKind,
}

/// The default vertex: kind Invalid, every placeholder zero.
pub open spec fn default_vertex() -> Vertex {
    Vertex {
        resource: 0,
        resource_number: 0,
        building_color: 0,
        building_type: 0,
        robber: 0,
        kind: VertexKind::Invalid,
    }
}

impl Default for Vertex {
    fn default() -> (vertex: Vertex)
        ensures
            vertex == default_vertex(),
    {
        Vertex {
            resource: 0,
            resource_number: 0,
            building_color: 0,
            building_type: 0,
            robber: 0,
            kind: VertexKind::Invalid,
        }
    }
}

/// Inert harbor data attached to an edge.
#[derive(Clone, Copy, Debug)]
pub struct Harbor {
    pub input_resource: i32,
    pub input_resource_count: i32,
    pub output_resource: i32,
    pub output_resouce_count: i32,
}

/// The default harbor: every field zero.
pub open spec fn default_harbor() -> Harbor {
    Harbor {
        input_resource: 0,
        input_resource_count: 0,
        output_resource: 0,
        output_resouce_count: 0,
    }
}

impl Default for Harbor {
    fn default() -> (harbor: Harbor)
        ensures
            harbor == default_harbor(),
    {
        Harbor { input_resource: 0, input_resource_count: 0, output_resource: 0, output_resouce_count: 0 }
    }
}

/// A potential connection in the rhombus grid, with its placeholders.
#[derive(Clone, Copy, Debug)]
pub struct Edge {
    pub road_color: i32,
    pub harbor: Harbor,
    pub kind: EdgeKind,
}

/// The default edge: kind Invalid, no road, default harbor.
pub open spec fn default_edge() -> Edge {
    Edge { road_color: 0, harbor: default_harbor(), kind: EdgeKind::Invalid }
}

impl Default for Edge {
    fn default() -> (edge: Edge)
        ensures
            edge == default_edge(),
    {
        Edge { road_color: 0, harbor: Harbor::default(), kind: EdgeKind::Invalid }
    }
}

/// The triangulated rhombus board.
pub struct Board {
    pub width: usize,
    pub height: usize,
    pub vertices_size: usize,
    pub vertical_edges_size: usize,
    pub right_diagonal_edges_size: usize,
    pub left_diagonal_edges_size: usize,
    pub edges_size: usize,
    pub vertices: Vec<Vertex>,
    pub edges: Vec<Edge>,
}

impl Board {
    /// Well-formedness: the cached sizes match the geometric formulas of the
    /// triangulated rhombus, and the arrays have exactly those lengths.
    pub open spec fn wf(self) -> bool {
        &&& 0 < self.height
        &&& 0 < self.width
        &&& self.vertices_size == self.height * self.width
        &&& self.vertical_edges_size == (self.height - 1) * self.width
        &&& self.right_diagonal_edges_size == self.height * (self.width - 1)
        &&& self.left_diagonal_edges_size == (self.height - 1) * (self.width - 1)
        &&& self.edges_size == self.vertical_edges_size + self.right_diagonal_edges_size
            + self.left_diagonal_edges_size
        &&& self.vertices@.len() == self.vertices_size
        &&& self.edges@.len() == self.edges_size
        &&& 3 * self.height * self.width <= usize::MAX
    }
}

/// Make a triangular board of the given vertex-rectangle dimensions, with every
/// vertex and every edge in its default (Invalid) state.
pub fn make_board(height: usize, width: usize) -> (board: Board)
    requires
        0 < height,
        0 < width,
        3 * height * width <= usize::MAX,
    ensures
        board.wf(),
        board.height == height,
        board.width == width,
        board.vertices@.len() == height * width,
        board.edges@.len() == board.vertical_edges_size + board.right_diagonal_edges_size
            + board.left_diagonal_edges_size,
        forall|i: int| 0 <= i < board.vertices@.len() ==> board.vertices@[i] == default_vertex(),
        forall|i: int| 0 <= i < board.edges@.len() ==> board.edges@[i] == default_edge(),
{
    proof {
        let h = height as int;
        let w = width as int;
        assert((h - 1) * w >= 0 && h * (w - 1) >= 0 && (h - 1) * (w - 1) >= 0 && h * w >= 0
            && h * w <= 3 * h * w
            && (h - 1) * w + h * (w - 1) + (h - 1) * (w - 1) <= 3 * h * w)
            by (nonlinear_arith)
            requires
                1 <= h,
                1 <= w,
        ;
    }
    let vertices_size: usize = height * width;
    let vertical_edges_size: usize = (height - 1) * width;
    let left_diagonal_edges_size: usize = (height - 1) * (width - 1);
    let right_diagonal_edges_size: usize = height * (width - 1);
    let edges_size: usize = vertical_edges_size + left_diagonal_edges_size
        + right_diagonal_edges_size;

    let mut vertices: Vec<Vertex> = Vec::new();
    let mut edges: Vec<Edge> = Vec::new();
    let mut i: usize = 0;
    while i < vertices_size
        invariant
            i <= vertices_size,
            vertices@.len() == i,
            forall|j: int| 0 <= j < i ==> vertices@[j] == default_vertex(),
        decreases vertices_size - i,
    {
        let vertex: Vertex = Default::default();
        vertices.push(vertex);
        i = i + 1;
    }
    let mut k: usize = 0;
    while k < edges_size
        invariant
            k <= edges_size,
            edges@.len() == k,
            forall|j: int| 0 <= j < k ==> edges@[j] == default_edge(),
        decreases edges_size - k,
    {
        let edge: Edge = Default::default();
        edges.push(edge);
        k = k + 1;
    }
    let board = Board {
        width: width,
        height: height,
        vertices_size: vertices_size,
        vertical_edges_size: vertical_edges_size,
        right_diagonal_edges_size: right_diagonal_edges_size,
        left_diagonal_edges_size: left_diagonal_edges_size,
        edges_size: edges_size,
        vertices: vertices,
        edges: edges,
    };
    board
}

} // verus!
