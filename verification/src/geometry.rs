//! Geometry upload: rectangles to vertices and indices.
//!
//! Coordinates are modeled exactly.  A point in normalized device
//! coordinates (NDC) is stored as an integer numerator over the fixed
//! denominator [`GAME_HALF_SPAN`]: the NDC value `v` of a numerator `n` is
//! `n / GAME_HALF_SPAN`, so the game-space interval
//! `[0, 2 * GAME_HALF_SPAN]` maps onto the device range `[-1, 1]`.
//! The transform is `ndc_x = game_x / GAME_HALF_SPAN - 1` on X and the
//! mirrored `ndc_y = 1 - game_y / GAME_HALF_SPAN` on Y (the Y axis is
//! inverted relative to game space).  On numerators both maps are affine
//! with unit slope and exactly invertible.

use vstd::prelude::*;

verus! {

/// Game-space units per half of the device span: the fixed scale factor
/// mapping the game's logical coordinate space to the NDC range `[-1, 1]`,
/// and the common denominator of all NDC numerators.
pub const GAME_HALF_SPAN: i64 = 50;

/// An axis-aligned rectangle in game-space units, as supplied by the caller
/// once per frame.  The engine retains no reference to it across frames.
#[derive(Clone, Copy, Debug, PartialEq, Eq, Structural)]
pub struct Rect {
    pub x: i32,
    pub y: i32,
    pub width: i32,
    pub height: i32,
}

/// A vertex consumed by the vertex shader: a two-component position in NDC,
/// held as exact numerators over [`GAME_HALF_SPAN`].
#[derive(Clone, Copy, Debug, PartialEq, Eq, Structural)]
pub struct Vertex {
    pub x: i64,
    pub y: i64,
}

/// NDC numerator of a game-space X coordinate: `game_x / GAME_HALF_SPAN - 1`
/// scaled by the denominator.
pub open spec fn ndc_x_num(game_x: int) -> int {
    game_x - GAME_HALF_SPAN
}

/// NDC numerator of a game-space Y coordinate, with the Y axis inverted:
/// `1 - game_y / GAME_HALF_SPAN` scaled by the denominator.
pub open spec fn ndc_y_num(game_y: int) -> int {
    GAME_HALF_SPAN - game_y
}

/// Inverse of [`ndc_x_num`].
pub open spec fn game_x_num(ndc_x: int) -> int {
    ndc_x + GAME_HALF_SPAN
}

/// Inverse of [`ndc_y_num`].
pub open spec fn game_y_num(ndc_y: int) -> int {
    GAME_HALF_SPAN - ndc_y
}

/// The vertex at the given game-space point.
pub open spec fn vertex_at(game_x: int, game_y: int) -> Vertex {
    Vertex { x: ndc_x_num(game_x) as i64, y: ndc_y_num(game_y) as i64 }
}

/// The game-to-NDC transform of a game-space X coordinate, as executable
/// code: returns the exact NDC numerator.
pub fn ndc_x_of_game(game_x: i32) -> (n: i64)
    ensures
        n == ndc_x_num(game_x as int),
{
    (game_x as i64) - GAME_HALF_SPAN
}

/// The game-to-NDC transform of a game-space Y coordinate (Y inverted), as
/// executable code: returns the exact NDC numerator.
pub fn ndc_y_of_game(game_y: i32) -> (n: i64)
    ensures
        n == ndc_y_num(game_y as int),
{
    GAME_HALF_SPAN - (game_y as i64)
}

/// Inverse transform on X: recovers the game-space coordinate from an NDC
/// numerator.
pub fn game_x_of_ndc(ndc_x: i64) -> (g: i64)
    requires
        ndc_x <= i64::MAX - GAME_HALF_SPAN,
    ensures
        g == game_x_num(ndc_x as int),
{
    ndc_x + GAME_HALF_SPAN
}

/// Inverse transform on Y: recovers the game-space coordinate from an NDC
/// numerator.
pub fn game_y_of_ndc(ndc_y: i64) -> (g: i64)
    requires
        ndc_y >= GAME_HALF_SPAN - i64::MAX,
    ensures
        g == game_y_num(ndc_y as int),
{
    GAME_HALF_SPAN - ndc_y
}

/// The coordinate transform is affine with unit slope on numerators and
/// exactly invertible: transforming a coordinate and inverse-transforming
/// yields the original coordinate, with no tolerance needed.
pub proof fn lemma_transform_invertible(game: int, ndc: int)
    ensures
        game_x_num(ndc_x_num(game)) == game,
        game_y_num(ndc_y_num(game)) == game,
        ndc_x_num(game_x_num(ndc)) == ndc,
        ndc_y_num(game_y_num(ndc)) == ndc,
        ndc_x_num(game + 1) == ndc_x_num(game) + 1,
        ndc_y_num(game + 1) == ndc_y_num(game) - 1,
{
}

/// The four corners of a rectangle in NDC, in emission order: top-left,
/// top-right, bottom-left, bottom-right.  "Top" is the corner at the
/// rectangle's origin in game space, which the inverted Y axis places at the
/// larger NDC numerator.
pub open spec fn rect_vertices(r: Rect) -> Seq<Vertex> {
    seq![
        vertex_at(r.x as int, r.y as int),
        vertex_at(r.x + r.width, r.y as int),
        vertex_at(r.x as int, r.y + r.height),
        vertex_at(r.x + r.width, r.y + r.height),
    ]
}

/// The six indices of the `i`-th rectangle: two triangles over the vertex
/// base offset `4 * i`, sharing the diagonal from the top-left corner
/// (offset 0) to the bottom-right corner (offset 3), each wound the same
/// way (see [`lemma_triangles_wound_consistently`]).
pub open spec fn rect_indices(i: int) -> Seq<u32> {
    seq![
        (4 * i) as u32,
        (4 * i + 2) as u32,
        (4 * i + 3) as u32,
        (4 * i) as u32,
        (4 * i + 3) as u32,
        (4 * i + 1) as u32,
    ]
}

/// All vertices of a rectangle list, four per rectangle in input order.
pub open spec fn vertices_of(rects: Seq<Rect>) -> Seq<Vertex>
    decreases rects.len(),
{
    if rects.len() == 0 {
        Seq::empty()
    } else {
        vertices_of(rects.drop_last()) + rect_vertices(rects.last())
    }
}

/// All indices of a rectangle list, six per rectangle in input order.
pub open spec fn indices_of(rects: Seq<Rect>) -> Seq<u32>
    decreases rects.len(),
{
    if rects.len() == 0 {
        Seq::empty()
    } else {
        indices_of(rects.drop_last()) + rect_indices(rects.len() - 1)
    }
}

/// Builds the per-frame vertex and index lists for the given rectangles:
/// for each rectangle, in input order, 4 vertices and 6 indices forming two
/// triangles covering it, with vertex base offset `4 * i` for the `i`-th
/// rectangle.  The lists are rebuilt fresh on every call; nothing is
/// retained across frames.
pub fn get_square_buffers(rects: &Vec<Rect>) -> (r: (Vec<Vertex>, Vec<u32>))
    requires
        rects@.len() * 6 <= u32::MAX,
    ensures
        r.0@ == vertices_of(rects@),
        r.1@ == indices_of(rects@),
        r.0@.len() == 4 * rects@.len(),
        r.1@.len() == 6 * rects@.len(),
{
    let n = rects.len();
    let mut vertices: Vec<Vertex> = Vec::new();
    let mut indices: Vec<u32> = Vec::new();
    let mut i: usize = 0;
    while i < n
        invariant
            i <= n,
            n == rects@.len(),
            n * 6 <= u32::MAX,
            vertices@ == vertices_of(rects@.take(i as int)),
            indices@ == indices_of(rects@.take(i as int)),
            vertices@.len() == 4 * i,
            indices@.len() == 6 * i,
        decreases n - i,
    {
        let r = rects[i];
        let base: u32 = (4 * i) as u32;
        let x0: i64 = ndc_x_of_game(r.x);
        let y0: i64 = ndc_y_of_game(r.y);
        let x1: i64 = (r.x as i64) + (r.width as i64) - GAME_HALF_SPAN;
        let y1: i64 = GAME_HALF_SPAN - ((r.y as i64) + (r.height as i64));
        vertices.push(Vertex { x: x0, y: y0 });
        vertices.push(Vertex { x: x1, y: y0 });
        vertices.push(Vertex { x: x0, y: y1 });
        vertices.push(Vertex { x: x1, y: y1 });
        indices.push(base);
        indices.push(base + 2);
        indices.push(base + 3);
        indices.push(base);
        indices.push(base + 3);
        indices.push(base + 1);
        proof {
            let prefix = rects@.take(i + 1 as int);
            assert(prefix.drop_last() =~= rects@.take(i as int));
            assert(prefix.last() == rects@[i as int]);
            assert(vertices@ =~= vertices_of(prefix));
            assert(indices@ =~= indices_of(prefix));
        }
        i += 1;
    }
    proof {
        assert(rects@.take(n as int) =~= rects@);
    }
    (vertices, indices)
}

/// The four vertices emitted for the `i`-th rectangle of a list.
pub open spec fn rect_vertex_block(rects: Seq<Rect>, i: int) -> Seq<Vertex> {
    vertices_of(rects).subrange(4 * i, 4 * i + 4)
}

/// The six indices emitted for the `i`-th rectangle of a list.
pub open spec fn rect_index_block(rects: Seq<Rect>, i: int) -> Seq<u32> {
    indices_of(rects).subrange(6 * i, 6 * i + 6)
}

/// Shape of the uploaded geometry: a list of `n` rectangles yields exactly
/// `4 * n` vertices and `6 * n` indices; the `i`-th rectangle owns the
/// vertex block starting at base offset `4 * i` and the index block
/// `rect_indices(i)` referring back to that base.
pub proof fn lemma_geometry_shape(rects: Seq<Rect>)
    ensures
        vertices_of(rects).len() == 4 * rects.len(),
        indices_of(rects).len() == 6 * rects.len(),
        forall|i: int|
            0 <= i < rects.len() ==> #[trigger] rect_vertex_block(rects, i)
                =~= rect_vertices(rects[i]),
        forall|i: int|
            0 <= i < rects.len() ==> #[trigger] rect_index_block(rects, i) =~= rect_indices(i),
    decreases rects.len(),
{
    if rects.len() > 0 {
        let prefix = rects.drop_last();
        lemma_geometry_shape(prefix);
        assert forall|i: int| 0 <= i < rects.len() implies #[trigger] rect_vertex_block(rects, i)
            =~= rect_vertices(rects[i]) by {
            if i < rects.len() - 1 {
                assert(rect_vertex_block(rects, i) =~= rect_vertex_block(prefix, i));
            } else {
                assert(rect_vertex_block(rects, i) =~= rect_vertices(rects.last()));
            }
        }
        assert forall|i: int| 0 <= i < rects.len() implies #[trigger] rect_index_block(rects, i)
            =~= rect_indices(i) by {
            if i < rects.len() - 1 {
                assert(rect_index_block(rects, i) =~= rect_index_block(prefix, i));
            } else {
                assert(rect_index_block(rects, i) =~= rect_indices(i));
            }
        }
    }
}

/// Twice the signed area of the triangle `(a, b, c)`: positive when the
/// triangle is wound counter-clockwise in the NDC numerator axes.
pub open spec fn orientation(a: Vertex, b: Vertex, c: Vertex) -> int {
    (b.x - a.x) * (c.y - a.y) - (b.y - a.y) * (c.x - a.x)
}

/// Both triangles of a rectangle are wound consistently: each has twice the
/// signed area `width * height`, so for a rectangle of positive size both
/// are counter-clockwise in the NDC numerator axes.
pub proof fn lemma_triangles_wound_consistently(r: Rect)
    ensures
        orientation(rect_vertices(r)[0], rect_vertices(r)[2], rect_vertices(r)[3]) == r.width
            * r.height,
        orientation(rect_vertices(r)[0], rect_vertices(r)[3], rect_vertices(r)[1]) == r.width
            * r.height,
        r.width > 0 && r.height > 0 ==> orientation(
            rect_vertices(r)[0],
            rect_vertices(r)[2],
            rect_vertices(r)[3],
        ) > 0,
{
    let v0 = rect_vertices(r)[0];
    let v1 = rect_vertices(r)[1];
    let v2 = rect_vertices(r)[2];
    let v3 = rect_vertices(r)[3];
    let w = r.width as int;
    let h = r.height as int;
    assert(v1.x - v0.x == w && v1.y - v0.y == 0);
    assert(v2.x - v0.x == 0 && v2.y - v0.y == -h);
    assert(v3.x - v0.x == w && v3.y - v0.y == -h);
    assert((v2.x - v0.x) * (v3.y - v0.y) - (v2.y - v0.y) * (v3.x - v0.x) == w * h)
        by (nonlinear_arith)
        requires
            v2.x - v0.x == 0 && v2.y - v0.y == -h,
            v3.x - v0.x == w && v3.y - v0.y == -h,
    ;
    assert((v3.x - v0.x) * (v1.y - v0.y) - (v3.y - v0.y) * (v1.x - v0.x) == w * h)
        by (nonlinear_arith)
        requires
            v3.x - v0.x == w && v3.y - v0.y == -h,
            v1.x - v0.x == w && v1.y - v0.y == 0,
    ;
    if r.width > 0 && r.height > 0 {
        assert(w * h > 0) by (nonlinear_arith)
            requires
                w > 0 && h > 0,
        ;
    }
}

} // verus!
