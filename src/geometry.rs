//! The quad that every frame draws: four corners and two triangles.
//!
//! Vertex coordinates are stored in half units: a stored coordinate `v`
//! stands for the position `v / 2`, so the corners at `±0.5` are `±1` here.
use vstd::prelude::*;

verus! {

/// Number of vertices of the quad.
pub const VERTEX_COUNT: usize = 4;

/// Components of each vertex position (x and y).
pub const POSITION_COMPONENTS: usize = 2;

/// Number of indices drawn: two triangles of three.
pub const INDEX_COUNT: usize = 6;

/// Size in bytes of one vertex coordinate as uploaded (a 32-bit float).
pub const COORDINATE_BYTES: usize = 4;

/// Size in bytes of one index as uploaded (an unsigned 16-bit integer).
pub const INDEX_BYTES: usize = 2;

/// The vertex coordinates in half units, `x, y` for each corner in turn.
pub open spec fn quad_vertex_seq() -> Seq<i8> {
    seq![1i8, 1i8, -1i8, 1i8, -1i8, -1i8, 1i8, -1i8]
}

/// The index list: corners `0, 1, 2` and then `2, 3, 0`.
pub open spec fn quad_index_seq() -> Seq<u16> {
    seq![0u16, 1u16, 2u16, 2u16, 3u16, 0u16]
}

/// The x coordinate (in half units) of corner `i` of `v`.
pub open spec fn corner_x(v: Seq<i8>, i: int) -> int {
    v[2 * i] as int
}

/// The y coordinate (in half units) of corner `i` of `v`.
pub open spec fn corner_y(v: Seq<i8>, i: int) -> int {
    v[2 * i + 1] as int
}

/// Twice the signed area of the triangle on corners `a`, `b`, `c` of `v`:
/// positive exactly when the corners run counter-clockwise.
pub open spec fn signed_area2(v: Seq<i8>, a: int, b: int, c: int) -> int {
    (corner_x(v, b) - corner_x(v, a)) * (corner_y(v, c) - corner_y(v, a))
        - (corner_y(v, b) - corner_y(v, a)) * (corner_x(v, c) - corner_x(v, a))
}

/// Triangle `k` of the index list `ix` runs counter-clockwise over the corners of `v`.
pub open spec fn triangle_ccw(v: Seq<i8>, ix: Seq<u16>, k: int) -> bool {
    signed_area2(v, ix[3 * k] as int, ix[3 * k + 1] as int, ix[3 * k + 2] as int) > 0
}

/// Some index of `ix` names corner `c`.
pub open spec fn uses_corner(ix: Seq<u16>, c: int) -> bool {
    exists|i: int| 0 <= i < ix.len() && ix[i] == c
}

/// The vertex coordinates to upload, in half units.
pub fn quad_vertices() -> (r: [i8; 8])
    ensures
        r@ == quad_vertex_seq(),
{
    let r: [i8; 8] = [1, 1, -1, 1, -1, -1, 1, -1];
    assert(r@ =~= quad_vertex_seq());
    r
}

/// The indices to upload: two triangles over the four corners.
pub fn quad_indices() -> (r: [u16; 6])
    ensures
        r@ == quad_index_seq(),
{
    let r: [u16; 6] = [0, 1, 2, 2, 3, 0];
    assert(r@ =~= quad_index_seq());
    r
}

/// Size in bytes of the vertex buffer.
pub fn vertex_buffer_bytes() -> (r: usize)
    ensures
        r == VERTEX_COUNT * POSITION_COMPONENTS * COORDINATE_BYTES,
        r == 32,
{
    VERTEX_COUNT * POSITION_COMPONENTS * COORDINATE_BYTES
}

/// Size in bytes of the index buffer.
pub fn index_buffer_bytes() -> (r: usize)
    ensures
        r == INDEX_COUNT * INDEX_BYTES,
        r == 12,
{
    INDEX_COUNT * INDEX_BYTES
}

/// The quad is well formed: eight coordinates, each `±0.5`, forming four
/// distinct points; six indices, each naming one of the four corners,
/// forming two triangles that together use every corner, both wound
/// counter-clockwise.
pub proof fn lemma_quad_well_formed()
    ensures
        quad_vertex_seq().len() == VERTEX_COUNT * POSITION_COMPONENTS,
        forall|i: int| 0 <= i < quad_vertex_seq().len()
            ==> (quad_vertex_seq()[i] == 1 || quad_vertex_seq()[i] == -1),
        forall|i: int, j: int| 0 <= i < j < VERTEX_COUNT
            ==> (corner_x(quad_vertex_seq(), i) != corner_x(quad_vertex_seq(), j)
                || corner_y(quad_vertex_seq(), i) != corner_y(quad_vertex_seq(), j)),
        quad_index_seq().len() == INDEX_COUNT,
        INDEX_COUNT == 2 * 3,
        forall|i: int| 0 <= i < quad_index_seq().len() ==> quad_index_seq()[i] < VERTEX_COUNT,
        forall|c: int| 0 <= c < VERTEX_COUNT ==> #[trigger] uses_corner(quad_index_seq(), c),
        triangle_ccw(quad_vertex_seq(), quad_index_seq(), 0),
        triangle_ccw(quad_vertex_seq(), quad_index_seq(), 1),
{
    let v = quad_vertex_seq();
    let ix = quad_index_seq();
    assert(ix[0] == 0 && ix[1] == 1 && ix[2] == 2 && ix[3] == 2 && ix[4] == 3 && ix[5] == 0);
    assert(v[0] == 1 && v[1] == 1 && v[2] == -1 && v[3] == 1);
    assert(v[4] == -1 && v[5] == -1 && v[6] == 1 && v[7] == -1);
    assert(corner_x(v, 0) == 1 && corner_y(v, 0) == 1);
    assert(corner_x(v, 1) == -1 && corner_y(v, 1) == 1);
    assert(corner_x(v, 2) == -1 && corner_y(v, 2) == -1);
    assert(corner_x(v, 3) == 1 && corner_y(v, 3) == -1);
    assert(signed_area2(v, 0, 1, 2) == (-2) * (-2) - 0 * (-2));
    assert(signed_area2(v, 2, 3, 0) == 2 * 2 - 0 * 2);
    assert forall|c: int| 0 <= c < VERTEX_COUNT implies #[trigger] uses_corner(ix, c) by {
        if c == 0 {
            assert(ix[0] == c);
        } else if c == 1 {
            assert(ix[1] == c);
        } else if c == 2 {
            assert(ix[2] == c);
        } else {
            assert(ix[4] == c);
        }
    }
}

} // verus!
