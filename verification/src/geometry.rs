//! Grid geometry: pure arithmetic converting among a vertex linear index, its
//! (row, column) position, and the three edge linear-index spaces (vertical,
//! right-diagonal, left-diagonal), plus the neighbor, perimeter, and
//! face-adjacency relations derived from them.
//!
//! All functions are total only on indices that stay within bounds: each states
//! as its precondition exactly what keeps its unsigned arithmetic from
//! underflowing or overflowing.

use vstd::prelude::*;
use vstd::arithmetic::div_mod::{
    lemma_fundamental_div_mod, lemma_fundamental_div_mod_converse,
    lemma_mod_division_less_than_divisor,
};
use crate::board::Board;

verus! {

/// The row of a vertex linear index.
pub open spec fn spec_row(v: int, width: int) -> int
    recommends
        0 < width,
{
    v / width
}

/// The column of a vertex linear index.
pub open spec fn spec_column(v: int, width: int) -> int
    recommends
        0 < width,
{
    v % width
}

pub open spec fn spec_north_vertex(v: int, width: int) -> int {
    v - width
}

pub open spec fn spec_northeast_vertex(v: int, width: int) -> int {
    v - width + 1
}

pub open spec fn spec_southeast_vertex(v: int) -> int {
    v + 1
}

pub open spec fn spec_south_vertex(v: int, width: int) -> int {
    v + width
}

pub open spec fn spec_southwest_vertex(v: int, width: int) -> int {
    v + width - 1
}

pub open spec fn spec_northwest_vertex(v: int) -> int {
    v - 1
}

/// How many vertical edges a height x width rhombus has.
pub open spec fn vertical_edges(height: int, width: int) -> int {
    (height - 1) * width
}

/// How many right-diagonal edges a height x width rhombus has.
pub open spec fn right_diagonal_edges(height: int, width: int) -> int {
    height * (width - 1)
}

/// How many left-diagonal edges a height x width rhombus has.
pub open spec fn left_diagonal_edges(height: int, width: int) -> int {
    (height - 1) * (width - 1)
}

/// How many edges a height x width rhombus has in all.
pub open spec fn total_edges(height: int, width: int) -> int {
    vertical_edges(height, width) + right_diagonal_edges(height, width)
        + left_diagonal_edges(height, width)
}

/// The vertical edge going up from a vertex.
pub open spec fn spec_north_edge(v: int, width: int) -> int {
    (spec_row(v, width) - 1) * width + spec_column(v, width)
}

/// The vertical edge going down from a vertex.
pub open spec fn spec_south_edge(v: int, width: int) -> int {
    spec_row(v, width) * width + spec_column(v, width)
}

/// The right-diagonal edge going down-right from a vertex.
pub open spec fn spec_southeast_edge(v: int, height: int, width: int) -> int {
    vertical_edges(height, width) + spec_row(v, width) * (width - 1) + spec_column(v, width)
}

/// The right-diagonal edge going up-left from a vertex.
pub open spec fn spec_northwest_edge(v: int, height: int, width: int) -> int {
    vertical_edges(height, width) + spec_row(v, width) * (width - 1) + spec_column(v, width) - 1
}

/// The left-diagonal edge going up-right from a vertex.
pub open spec fn spec_northeast_edge(v: int, height: int, width: int) -> int {
    vertical_edges(height, width) + right_diagonal_edges(height, width)
        + (spec_row(v, width) - 1) * (width - 1) + spec_column(v, width)
}

/// The left-diagonal edge going down-left from a vertex.
pub open spec fn spec_southwest_edge(v: int, height: int, width: int) -> int {
    vertical_edges(height, width) + right_diagonal_edges(height, width)
        + spec_row(v, width) * (width - 1) + spec_column(v, width) - 1
}

/// A perimeter edge: the southeast edge of the vertex one step north.
pub open spec fn spec_northeast_perimeter(v: int, height: int, width: int) -> int {
    spec_southeast_edge(spec_north_vertex(v, width), height, width)
}

/// A perimeter edge: the south edge of the vertex one step northeast.
pub open spec fn spec_east_perimeter(v: int, width: int) -> int {
    spec_south_edge(spec_northeast_vertex(v, width), width)
}

/// A perimeter edge: the southwest edge of the vertex one step southeast.
pub open spec fn spec_southeast_perimeter(v: int, height: int, width: int) -> int {
    spec_southwest_edge(spec_southeast_vertex(v), height, width)
}

/// A perimeter edge: the northwest edge of the vertex one step south.
pub open spec fn spec_southwest_perimeter(v: int, height: int, width: int) -> int {
    spec_northwest_edge(spec_south_vertex(v, width), height, width)
}

/// A perimeter edge: the north edge of the vertex one step southwest.
pub open spec fn spec_west_perimeter(v: int, width: int) -> int {
    spec_north_edge(spec_southwest_vertex(v, width), width)
}

/// A perimeter edge: the northeast edge of the vertex one step northwest.
pub open spec fn spec_northwest_perimeter(v: int, height: int, width: int) -> int {
    spec_northeast_edge(spec_northwest_vertex(v), height, width)
}

/// The face vertex of the hexagon one hexagon to the northeast.
pub open spec fn spec_northeast_face(v: int, width: int) -> int {
    spec_north_vertex(spec_northeast_vertex(v, width), width)
}

/// The face vertex of the hexagon one hexagon to the east.
pub open spec fn spec_east_face(v: int, width: int) -> int {
    spec_southeast_vertex(spec_northeast_vertex(v, width))
}

/// A vertex is interior when it sits on no boundary row or column of the
/// rhombus: every neighbor, neighbor-edge and perimeter-edge formula then stays
/// in range.
pub open spec fn is_interior(v: int, height: int, width: int) -> bool {
    &&& 1 <= spec_row(v, width) <= height - 2
    &&& 1 <= spec_column(v, width) <= width - 2
}

/// Every vertex index decomposes as row * width + column, with the row below
/// the board height.
pub proof fn lemma_row_col_bounds(v: int, height: int, width: int)
    requires
        0 < width,
        0 <= v,
        v < height * width,
    ensures
        0 <= spec_row(v, width),
        spec_row(v, width) < height,
        0 <= spec_column(v, width) < width,
        v == spec_row(v, width) * width + spec_column(v, width),
{
    lemma_fundamental_div_mod(v, width);
    lemma_mod_division_less_than_divisor(v, width);
    assert(v == width * (v / width) + v % width);
    assert(spec_row(v, width) * width == width * spec_row(v, width)) by (nonlinear_arith);
    assert(spec_row(v, width) >= 0) by (nonlinear_arith)
        requires
            0 <= v,
            0 < width,
            v == width * spec_row(v, width) + spec_column(v, width),
            spec_column(v, width) < width,
    ;
    assert(spec_row(v, width) < height) by (nonlinear_arith)
        requires
            0 < width,
            v < height * width,
            v == width * spec_row(v, width) + spec_column(v, width),
            0 <= spec_column(v, width),
    ;
}

/// The row and column of an index given in decomposed form.
pub proof fn lemma_row_col_of(u: int, r: int, c: int, width: int)
    requires
        0 < width,
        0 <= c < width,
        0 <= r,
        u == r * width + c,
    ensures
        spec_row(u, width) == r,
        spec_column(u, width) == c,
{
    lemma_fundamental_div_mod_converse(u, width, r, c);
}

/// What holds of an interior vertex: the board is at least 3 x 3, the vertex
/// and all six of its neighbors lie strictly inside the vertex array, none of
/// the neighbors is the vertex itself, and each neighbor's row and column are
/// one step from the vertex's own.
pub proof fn lemma_interior_facts(v: int, height: int, width: int)
    requires
        0 < width,
        0 < height,
        is_interior(v, height, width),
    ensures
        3 <= width,
        3 <= height,
        v == spec_row(v, width) * width + spec_column(v, width),
        width + 1 <= v,
        v + width + 1 <= height * width,
        spec_north_vertex(v, width) != v,
        spec_northeast_vertex(v, width) != v,
        spec_southeast_vertex(v) != v,
        spec_south_vertex(v, width) != v,
        spec_southwest_vertex(v, width) != v,
        spec_northwest_vertex(v) != v,
        spec_row(v - width, width) == spec_row(v, width) - 1,
        spec_column(v - width, width) == spec_column(v, width),
        spec_row(v - width + 1, width) == spec_row(v, width) - 1,
        spec_column(v - width + 1, width) == spec_column(v, width) + 1,
        spec_row(v + 1, width) == spec_row(v, width),
        spec_column(v + 1, width) == spec_column(v, width) + 1,
        spec_row(v + width, width) == spec_row(v, width) + 1,
        spec_column(v + width, width) == spec_column(v, width),
        spec_row(v + width - 1, width) == spec_row(v, width) + 1,
        spec_column(v + width - 1, width) == spec_column(v, width) - 1,
        spec_row(v - 1, width) == spec_row(v, width),
        spec_column(v - 1, width) == spec_column(v, width) - 1,
{
    lemma_fundamental_div_mod(v, width);
    lemma_mod_division_less_than_divisor(v, width);
    let r = spec_row(v, width);
    let c = spec_column(v, width);
    assert(v == width * r + c);
    assert(v == r * width + c) by (nonlinear_arith)
        requires
            v == width * r + c,
    ;
    assert(width + 1 <= v && v + width + 1 <= height * width) by (nonlinear_arith)
        requires
            v == r * width + c,
            1 <= r <= height - 2,
            1 <= c <= width - 2,
            3 <= width,
    ;
    assert(v - width == (r - 1) * width + c) by (nonlinear_arith)
        requires
            v == r * width + c,
    ;
    assert(v + width == (r + 1) * width + c) by (nonlinear_arith)
        requires
            v == r * width + c,
    ;
    lemma_row_col_of(v - width, r - 1, c, width);
    lemma_row_col_of(v - width + 1, r - 1, c + 1, width);
    lemma_row_col_of(v + 1, r, c + 1, width);
    lemma_row_col_of(v + width, r + 1, c, width);
    lemma_row_col_of(v + width - 1, r + 1, c - 1, width);
    lemma_row_col_of(v - 1, r, c - 1, width);
}

/// The row of a vertex linear index.
pub fn get_row(vertex_index: usize, board_width: usize) -> (r: usize)
    requires
        0 < board_width,
    ensures
        r as int == spec_row(vertex_index as int, board_width as int),
{
    vertex_index / board_width
}

/// The column of a vertex linear index.
pub fn get_column(vertex_index: usize, board_width: usize) -> (c: usize)
    requires
        0 < board_width,
    ensures
        c as int == spec_column(vertex_index as int, board_width as int),
{
    vertex_index % board_width
}

/// The vertex one step north.
pub fn get_north_vertex(vertex_index: usize, board: &Board) -> (r: usize)
    requires
        board.wf(),
        board.width <= vertex_index,
    ensures
        r as int == spec_north_vertex(vertex_index as int, board.width as int),
{
    vertex_index - board.width
}

/// The vertex one step northeast.
pub fn get_northeast_vertex(vertex_index: usize, board: &Board) -> (r: usize)
    requires
        board.wf(),
        board.width <= vertex_index,
    ensures
        r as int == spec_northeast_vertex(vertex_index as int, board.width as int),
{
    vertex_index - board.width + 1
}

/// The vertex one step southeast.
pub fn get_southeast_vertex(vertex_index: usize, _board: &Board) -> (r: usize)
    requires
        vertex_index < usize::MAX,
    ensures
        r as int == spec_southeast_vertex(vertex_index as int),
{
    vertex_index + 1
}

/// The vertex one step south.
pub fn get_south_vertex(vertex_index: usize, board: &Board) -> (r: usize)
    requires
        board.wf(),
        vertex_index + board.width <= usize::MAX,
    ensures
        r as int == spec_south_vertex(vertex_index as int, board.width as int),
{
    vertex_index + board.width
}

/// The vertex one step southwest.
pub fn get_southwest_vertex(vertex_index: usize, board: &Board) -> (r: usize)
    requires
        board.wf(),
        vertex_index + board.width <= usize::MAX,
    ensures
        r as int == spec_southwest_vertex(vertex_index as int, board.width as int),
{
    vertex_index + board.width - 1
}

/// The vertex one step northwest.
pub fn get_northwest_vertex(vertex_index: usize, _board: &Board) -> (r: usize)
    requires
        1 <= vertex_index,
    ensures
        r as int == spec_northwest_vertex(vertex_index as int),
{
    vertex_index - 1
}

/// All six neighbor vertices, in the fixed order
/// [north, northeast, southeast, south, southwest, northwest].
pub fn get_neighbor_vertices(vertex_index: usize, board: &Board) -> (r: [usize; 6])
    requires
        board.wf(),
        board.width <= vertex_index,
        vertex_index + board.width <= usize::MAX,
    ensures
        r@.len() == 6,
        r@[0] as int == spec_north_vertex(vertex_index as int, board.width as int),
        r@[1] as int == spec_northeast_vertex(vertex_index as int, board.width as int),
        r@[2] as int == spec_southeast_vertex(vertex_index as int),
        r@[3] as int == spec_south_vertex(vertex_index as int, board.width as int),
        r@[4] as int == spec_southwest_vertex(vertex_index as int, board.width as int),
        r@[5] as int == spec_northwest_vertex(vertex_index as int),
{
    [
        get_north_vertex(vertex_index, board),
        get_northeast_vertex(vertex_index, board),
        get_southeast_vertex(vertex_index, board),
        get_south_vertex(vertex_index, board),
        get_southwest_vertex(vertex_index, board),
        get_northwest_vertex(vertex_index, board),
    ]
}

/// The vertical edge going up from a vertex.
pub fn get_north_edge(vertex_index: usize, board: &Board) -> (r: usize)
    requires
        board.wf(),
        vertex_index < board.vertices_size,
        board.width <= vertex_index,
    ensures
        r as int == spec_north_edge(vertex_index as int, board.width as int),
{
    proof {
        lemma_row_col_bounds(vertex_index as int, board.height as int, board.width as int);
        let w = board.width as int;
        let h = board.height as int;
        let row = spec_row(vertex_index as int, w);
        let col = spec_column(vertex_index as int, w);
        assert(1 <= row && (row - 1) * w + col < (h - 1) * w) by (nonlinear_arith)
            requires
                vertex_index as int == row * w + col,
                0 <= col < w,
                row < h,
                w <= vertex_index as int,
                0 < w,
        ;
        assert((h - 1) * w <= 3 * h * w) by (nonlinear_arith)
            requires
                0 < w,
                0 < h,
        ;
    }
    (get_row(vertex_index, board.width) - 1) * board.width
        + get_column(vertex_index, board.width)
}

/// The left-diagonal edge going up-right from a vertex.
pub fn get_northeast_edge(vertex_index: usize, board: &Board) -> (r: usize)
    requires
        board.wf(),
        vertex_index < board.vertices_size,
        board.width <= vertex_index,
    ensures
        r as int == spec_northeast_edge(
            vertex_index as int,
            board.height as int,
            board.width as int,
        ),
{
    proof {
        lemma_row_col_bounds(vertex_index as int, board.height as int, board.width as int);
        let w = board.width as int;
        let h = board.height as int;
        let row = spec_row(vertex_index as int, w);
        let col = spec_column(vertex_index as int, w);
        assert(1 <= row && 0 <= (row - 1) * (w - 1)
            && (h - 1) * w + h * (w - 1) + (row - 1) * (w - 1) + col <= 3 * h * w)
            by (nonlinear_arith)
            requires
                vertex_index as int == row * w + col,
                0 <= col < w,
                row < h,
                w <= vertex_index as int,
                0 < w,
                0 < h,
        ;
    }
    let offset = (get_row(vertex_index, board.width) - 1) * (board.width - 1)
        + get_column(vertex_index, board.width);
    board.vertical_edges_size + board.right_diagonal_edges_size + offset
}

/// The right-diagonal edge going down-right from a vertex.
pub fn get_southeast_edge(vertex_index: usize, board: &Board) -> (r: usize)
    requires
        board.wf(),
        vertex_index < board.vertices_size,
    ensures
        r as int == spec_southeast_edge(
            vertex_index as int,
            board.height as int,
            board.width as int,
        ),
{
    proof {
        lemma_row_col_bounds(vertex_index as int, board.height as int, board.width as int);
        let w = board.width as int;
        let h = board.height as int;
        let row = spec_row(vertex_index as int, w);
        let col = spec_column(vertex_index as int, w);
        assert(0 <= row * (w - 1) && (h - 1) * w + row * (w - 1) + col <= 3 * h * w)
            by (nonlinear_arith)
            requires
                0 <= col < w,
                0 <= row < h,
                0 < w,
                0 < h,
        ;
    }
    let offset = get_row(vertex_index, board.width) * (board.width - 1)
        + get_column(vertex_index, board.width);
    board.vertical_edges_size + offset
}

/// The vertical edge going down from a vertex.
pub fn get_south_edge(vertex_index: usize, board: &Board) -> (r: usize)
    requires
        board.wf(),
        vertex_index < board.vertices_size,
    ensures
        r as int == spec_south_edge(vertex_index as int, board.width as int),
{
    proof {
        lemma_row_col_bounds(vertex_index as int, board.height as int, board.width as int);
        let w = board.width as int;
        let row = spec_row(vertex_index as int, w);
        let col = spec_column(vertex_index as int, w);
        assert(0 <= row * w) by (nonlinear_arith)
            requires
                0 <= row,
                0 < w,
        ;
    }
    get_row(vertex_index, board.width) * board.width + get_column(vertex_index, board.width)
}

/// The left-diagonal edge going down-left from a vertex.
pub fn get_southwest_edge(vertex_index: usize, board: &Board) -> (r: usize)
    requires
        board.wf(),
        vertex_index < board.vertices_size,
        1 <= spec_row(vertex_index as int, board.width as int) * (board.width - 1)
            + spec_column(vertex_index as int, board.width as int),
    ensures
        r as int == spec_southwest_edge(
            vertex_index as int,
            board.height as int,
            board.width as int,
        ),
{
    proof {
        lemma_row_col_bounds(vertex_index as int, board.height as int, board.width as int);
        let w = board.width as int;
        let h = board.height as int;
        let row = spec_row(vertex_index as int, w);
        let col = spec_column(vertex_index as int, w);
        assert(0 <= (h - 1) * w
            && 0 <= h * (w - 1)
            && 0 <= row * (w - 1)
            && row * (w - 1) + col <= h * (w - 1) + w
            && h * (w - 1) + w <= 3 * h * w
            && (h - 1) * w + h * (w - 1) + h * (w - 1) + w <= 3 * h * w)
            by (nonlinear_arith)
            requires
                0 <= col < w,
                0 <= row < h,
                0 < w,
                0 < h,
        ;
    }
    let offset = get_row(vertex_index, board.width) * (board.width - 1)
        + get_column(vertex_index, board.width) - 1;
    board.vertical_edges_size + board.right_diagonal_edges_size + offset
}

/// The right-diagonal edge going up-left from a vertex.
pub fn get_northwest_edge(vertex_index: usize, board: &Board) -> (r: usize)
    requires
        board.wf(),
        vertex_index < board.vertices_size,
        1 <= spec_row(vertex_index as int, board.width as int) * (board.width - 1)
            + spec_column(vertex_index as int, board.width as int),
    ensures
        r as int == spec_northwest_edge(
            vertex_index as int,
            board.height as int,
            board.width as int,
        ),
{
    proof {
        lemma_row_col_bounds(vertex_index as int, board.height as int, board.width as int);
        let w = board.width as int;
        let h = board.height as int;
        let row = spec_row(vertex_index as int, w);
        let col = spec_column(vertex_index as int, w);
        assert(0 <= (h - 1) * w
            && 0 <= row * (w - 1)
            && row * (w - 1) + col <= h * (w - 1) + w
            && h * (w - 1) + w <= 3 * h * w
            && (h - 1) * w + h * (w - 1) + w <= 3 * h * w)
            by (nonlinear_arith)
            requires
                0 <= col < w,
                0 <= row < h,
                0 < w,
                0 < h,
        ;
    }
    let offset = get_row(vertex_index, board.width) * (board.width - 1)
        + get_column(vertex_index, board.width) - 1;
    board.vertical_edges_size + offset
}

/// All six neighbor edges, in the fixed order
/// [north, northeast, southeast, south, southwest, northwest].
pub fn get_neighbor_edges(vertex_index: usize, board: &Board) -> (r: [usize; 6])
    requires
        board.wf(),
        vertex_index < board.vertices_size,
        board.width <= vertex_index,
        2 <= board.width,
    ensures
        r@.len() == 6,
        r@[0] as int == spec_north_edge(vertex_index as int, board.width as int),
        r@[1] as int == spec_northeast_edge(
            vertex_index as int,
            board.height as int,
            board.width as int,
        ),
        r@[2] as int == spec_southeast_edge(
            vertex_index as int,
            board.height as int,
            board.width as int,
        ),
        r@[3] as int == spec_south_edge(vertex_index as int, board.width as int),
        r@[4] as int == spec_southwest_edge(
            vertex_index as int,
            board.height as int,
            board.width as int,
        ),
        r@[5] as int == spec_northwest_edge(
            vertex_index as int,
            board.height as int,
            board.width as int,
        ),
{
    proof {
        lemma_row_col_bounds(vertex_index as int, board.height as int, board.width as int);
        let w = board.width as int;
        let row = spec_row(vertex_index as int, w);
        let col = spec_column(vertex_index as int, w);
        assert(1 <= row && 1 <= row * (w - 1) + col) by (nonlinear_arith)
            requires
                vertex_index as int == row * w + col,
                0 <= col < w,
                w <= vertex_index as int,
                2 <= w,
                0 <= row,
        ;
    }
    [
        get_north_edge(vertex_index, board),
        get_northeast_edge(vertex_index, board),
        get_southeast_edge(vertex_index, board),
        get_south_edge(vertex_index, board),
        get_southwest_edge(vertex_index, board),
        get_northwest_edge(vertex_index, board),
    ]
}

/// The northeast perimeter edge of the hexagon centered on a face vertex:
/// the southeast edge of the vertex one step north.
pub fn get_northeast_perimeter(vertex_index: usize, board: &Board) -> (r: usize)
    requires
        board.wf(),
        is_interior(vertex_index as int, board.height as int, board.width as int),
    ensures
        r as int == spec_northeast_perimeter(
            vertex_index as int,
            board.height as int,
            board.width as int,
        ),
{
    proof {
        lemma_interior_facts(vertex_index as int, board.height as int, board.width as int);
    }
    let north = get_north_vertex(vertex_index, board);
    get_southeast_edge(north, board)
}

/// The east perimeter edge of the hexagon centered on a face vertex:
/// the south edge of the vertex one step northeast.
pub fn get_east_perimeter(vertex_index: usize, board: &Board) -> (r: usize)
    requires
        board.wf(),
        is_interior(vertex_index as int, board.height as int, board.width as int),
    ensures
        r as int == spec_east_perimeter(vertex_index as int, board.width as int),
{
    proof {
        lemma_interior_facts(vertex_index as int, board.height as int, board.width as int);
    }
    let northeast = get_northeast_vertex(vertex_index, board);
    get_south_edge(northeast, board)
}

/// The southeast perimeter edge of the hexagon centered on a face vertex:
/// the southwest edge of the vertex one step southeast.
pub fn get_southeast_perimeter(vertex_index: usize, board: &Board) -> (r: usize)
    requires
        board.wf(),
        is_interior(vertex_index as int, board.height as int, board.width as int),
    ensures
        r as int == spec_southeast_perimeter(
            vertex_index as int,
            board.height as int,
            board.width as int,
        ),
{
    proof {
        lemma_interior_facts(vertex_index as int, board.height as int, board.width as int);
        let w = board.width as int;
        let row = spec_row(vertex_index as int, w);
        let col = spec_column(vertex_index as int, w);
        assert(1 <= row * (w - 1) + (col + 1)) by (nonlinear_arith)
            requires
                1 <= row,
                0 <= col,
                3 <= w,
        ;
    }
    let southeast = get_southeast_vertex(vertex_index, board);
    get_southwest_edge(southeast, board)
}

/// The southwest perimeter edge of the hexagon centered on a face vertex:
/// the northwest edge of the vertex one step south.
pub fn get_southwest_perimeter(vertex_index: usize, board: &Board) -> (r: usize)
    requires
        board.wf(),
        is_interior(vertex_index as int, board.height as int, board.width as int),
    ensures
        r as int == spec_southwest_perimeter(
            vertex_index as int,
            board.height as int,
            board.width as int,
        ),
{
    proof {
        lemma_interior_facts(vertex_index as int, board.height as int, board.width as int);
        let w = board.width as int;
        let row = spec_row(vertex_index as int, w);
        let col = spec_column(vertex_index as int, w);
        assert(1 <= (row + 1) * (w - 1) + col) by (nonlinear_arith)
            requires
                1 <= row,
                1 <= col,
                3 <= w,
        ;
    }
    let south = get_south_vertex(vertex_index, board);
    get_northwest_edge(south, board)
}

/// The west perimeter edge of the hexagon centered on a face vertex:
/// the north edge of the vertex one step southwest.
pub fn get_west_perimeter(vertex_index: usize, board: &Board) -> (r: usize)
    requires
        board.wf(),
        is_interior(vertex_index as int, board.height as int, board.width as int),
    ensures
        r as int == spec_west_perimeter(vertex_index as int, board.width as int),
{
    proof {
        lemma_interior_facts(vertex_index as int, board.height as int, board.width as int);
    }
    let southwest = get_southwest_vertex(vertex_index, board);
    get_north_edge(southwest, board)
}

/// The northwest perimeter edge of the hexagon centered on a face vertex:
/// the northeast edge of the vertex one step northwest.
pub fn get_northwest_perimeter(vertex_index: usize, board: &Board) -> (r: usize)
    requires
        board.wf(),
        is_interior(vertex_index as int, board.height as int, board.width as int),
    ensures
        r as int == spec_northwest_perimeter(
            vertex_index as int,
            board.height as int,
            board.width as int,
        ),
{
    proof {
        lemma_interior_facts(vertex_index as int, board.height as int, board.width as int);
    }
    let northwest = get_northwest_vertex(vertex_index, board);
    get_northeast_edge(northwest, board)
}

/// All six perimeter edges, in the fixed order
/// [northeast, east, southeast, southwest, west, northwest].
pub fn get_perimeter_edges(vertex_index: usize, board: &Board) -> (r: [usize; 6])
    requires
        board.wf(),
        is_interior(vertex_index as int, board.height as int, board.width as int),
    ensures
        r@.len() == 6,
        r@[0] as int == spec_northeast_perimeter(
            vertex_index as int,
            board.height as int,
            board.width as int,
        ),
        r@[1] as int == spec_east_perimeter(vertex_index as int, board.width as int),
        r@[2] as int == spec_southeast_perimeter(
            vertex_index as int,
            board.height as int,
            board.width as int,
        ),
        r@[3] as int == spec_southwest_perimeter(
            vertex_index as int,
            board.height as int,
            board.width as int,
        ),
        r@[4] as int == spec_west_perimeter(vertex_index as int, board.width as int),
        r@[5] as int == spec_northwest_perimeter(
            vertex_index as int,
            board.height as int,
            board.width as int,
        ),
{
    [
        get_northeast_perimeter(vertex_index, board),
        get_east_perimeter(vertex_index, board),
        get_southeast_perimeter(vertex_index, board),
        get_southwest_perimeter(vertex_index, board),
        get_west_perimeter(vertex_index, board),
        get_northwest_perimeter(vertex_index, board),
    ]
}

/// If vertex_index is the middle of a hexagon, the vertex in the middle of the
/// neighboring hexagon to the northeast.
pub fn get_northeast_face(vertex_index: usize, board: &Board) -> (r: usize)
    requires
        board.wf(),
        2 * board.width <= vertex_index + 1,
    ensures
        r as int == spec_northeast_face(vertex_index as int, board.width as int),
{
    let northeast_index = get_northeast_vertex(vertex_index, board);
    get_north_vertex(northeast_index, board)
}

/// If vertex_index is the middle of a hexagon, the vertex in the middle of the
/// neighboring hexagon to the east.
pub fn get_east_face(vertex_index: usize, board: &Board) -> (r: usize)
    requires
        board.wf(),
        board.width <= vertex_index,
        vertex_index < usize::MAX,
    ensures
        r as int == spec_east_face(vertex_index as int, board.width as int),
{
    let northeast_index = get_northeast_vertex(vertex_index, board);
    get_southeast_vertex(northeast_index, board)
}

/// The row of the face vertex for the hexagon at offset coordinates
/// (hex_row, hex_column).
pub open spec fn spec_hex_vertex_row(hex_row: int, hex_column: int) -> int {
    3 * (hex_row / 2) + hex_row % 2 + 1 - hex_column
}

/// The column of the face vertex for the hexagon at offset coordinates
/// (hex_row, hex_column).
pub open spec fn spec_hex_vertex_column(hex_row: int, hex_column: int) -> int {
    2 * hex_column + hex_row % 2 + 1
}

/// The vertex linear index for the face of the hexagon at offset coordinates
/// (hex_row, hex_column).
pub open spec fn spec_vertex_from_hex(hex_row: int, hex_column: int, width: int) -> int {
    spec_hex_vertex_row(hex_row, hex_column) * width
        + spec_hex_vertex_column(hex_row, hex_column)
}

/// The vertex index for the middle of the hexagon at (hex_row, hex_column) in
/// offset coordinates. The result is not bounds-checked against the board:
/// callers validate it against the board's dimensions before use.
pub fn get_vertex_from_hex(hex_row: usize, hex_column: usize, board: &Board) -> (r: usize)
    requires
        board.wf(),
        3 * (hex_row as int / 2) + hex_row as int % 2 + 1 <= usize::MAX,
        hex_column as int <= 3 * (hex_row as int / 2) + hex_row as int % 2 + 1,
        spec_vertex_from_hex(hex_row as int, hex_column as int, board.width as int)
            <= usize::MAX,
    ensures
        r as int == spec_vertex_from_hex(
            hex_row as int,
            hex_column as int,
            board.width as int,
        ),
{
    proof {
        lemma_mod_division_less_than_divisor(hex_row as int, 2);
        let vr = spec_hex_vertex_row(hex_row as int, hex_column as int);
        let w = board.width as int;
        assert(0 <= vr * w) by (nonlinear_arith)
            requires
                0 <= vr,
                0 < w,
        ;
    }
    let row_offset = (hex_row % 2) + 1;
    let row = 3 * (hex_row / 2) + row_offset;
    let row = row - hex_column;
    let column_offset = (hex_row % 2) + 1;
    let column = hex_column * 2 + column_offset;
    row * board.width + column
}

/// The six neighbor edges of a vertex, in the fixed order
/// [north, northeast, southeast, south, southwest, northwest].
pub open spec fn spec_neighbor_edge_seq(v: int, height: int, width: int) -> Seq<int> {
    seq![
        spec_north_edge(v, width),
        spec_northeast_edge(v, height, width),
        spec_southeast_edge(v, height, width),
        spec_south_edge(v, width),
        spec_southwest_edge(v, height, width),
        spec_northwest_edge(v, height, width),
    ]
}

/// The six perimeter edges of a face vertex, in the fixed order
/// [northeast, east, southeast, southwest, west, northwest].
pub open spec fn spec_perimeter_edge_seq(v: int, height: int, width: int) -> Seq<int> {
    seq![
        spec_northeast_perimeter(v, height, width),
        spec_east_perimeter(v, width),
        spec_southeast_perimeter(v, height, width),
        spec_southwest_perimeter(v, height, width),
        spec_west_perimeter(v, width),
        spec_northwest_perimeter(v, height, width),
    ]
}

/// Opposite direction steps are mutual inverses: for every interior vertex,
/// stepping south then north, southwest then northeast, or northwest then
/// southeast returns to the starting vertex.
pub proof fn lemma_direction_pairs_inverse(v: int, height: int, width: int)
    requires
        0 < width,
        0 < height,
        is_interior(v, height, width),
    ensures
        spec_north_vertex(spec_south_vertex(v, width), width) == v,
        spec_northeast_vertex(spec_southwest_vertex(v, width), width) == v,
        spec_southeast_vertex(spec_northwest_vertex(v)) == v,
{
}

/// For every interior face vertex, the six neighbor edges (the spokes from the
/// face to its corners) are pairwise distinct, none of them is one of the six
/// perimeter edges, and all twelve lie inside the edge array.
pub proof fn lemma_neighbor_perimeter_edges_distinct(v: int, height: int, width: int)
    requires
        0 < width,
        0 < height,
        is_interior(v, height, width),
    ensures
        forall|i: int, j: int|
            0 <= i < j < 6 ==> spec_neighbor_edge_seq(v, height, width)[i]
                != spec_neighbor_edge_seq(v, height, width)[j],
        forall|i: int, j: int|
            0 <= i < 6 && 0 <= j < 6 ==> spec_neighbor_edge_seq(v, height, width)[i]
                != spec_perimeter_edge_seq(v, height, width)[j],
        forall|i: int|
            0 <= i < 6 ==> 0 <= #[trigger] spec_neighbor_edge_seq(v, height, width)[i]
                < total_edges(height, width),
        forall|i: int|
            0 <= i < 6 ==> 0 <= #[trigger] spec_perimeter_edge_seq(v, height, width)[i]
                < total_edges(height, width),
{
    lemma_interior_facts(v, height, width);
    let h = height;
    let w = width;
    let r = spec_row(v, w);
    let c = spec_column(v, w);
    let vert = (h - 1) * w;
    let right = h * (w - 1);
    let ns = spec_neighbor_edge_seq(v, h, w);
    let ps = spec_perimeter_edge_seq(v, h, w);
    // Ring identities putting every index in a form linear in r*w and r*(w-1).
    assert((r - 1) * w == r * w - w
        && (r + 1) * (w - 1) == r * (w - 1) + w - 1
        && (r - 1) * (w - 1) == r * (w - 1) - w + 1
        && (h - 1) * (w - 1) == h * (w - 1) - w + 1) by (nonlinear_arith);
    // Bounds on the two base products for an interior vertex.
    assert(w <= r * w && r * w <= (h - 1) * w - w
        && w - 1 <= r * (w - 1) && r * (w - 1) <= h * (w - 1) - 2 * (w - 1))
        by (nonlinear_arith)
        requires
            1 <= r <= h - 2,
            3 <= w,
    ;
    assert(ns[0] == r * w - w + c);
    assert(ns[1] == vert + right + r * (w - 1) - w + 1 + c);
    assert(ns[2] == vert + r * (w - 1) + c);
    assert(ns[3] == r * w + c);
    assert(ns[4] == vert + right + r * (w - 1) + c - 1);
    assert(ns[5] == vert + r * (w - 1) + c - 1);
    assert(ps[0] == vert + r * (w - 1) - w + 1 + c);
    assert(ps[1] == r * w - w + c + 1);
    assert(ps[2] == vert + right + r * (w - 1) + c);
    assert(ps[3] == vert + r * (w - 1) + w - 1 + c - 1);
    assert(ps[4] == r * w + c - 1);
    assert(ps[5] == vert + right + r * (w - 1) - w + 1 + c - 1);
    assert forall|i: int, j: int| 0 <= i < j < 6 implies ns[i] != ns[j] by {}
    assert forall|i: int, j: int| 0 <= i < 6 && 0 <= j < 6 implies ns[i] != ps[j] by {}
    assert forall|i: int| 0 <= i < 6 implies 0 <= #[trigger] ns[i] < total_edges(h, w) by {}
    assert forall|i: int| 0 <= i < 6 implies 0 <= #[trigger] ps[i] < total_edges(h, w) by {}
}

} // verus!
