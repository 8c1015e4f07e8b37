//! The quad's geometry and the layout of its GPU buffers.
//!
//! The quad has four vertices, one per corner, each a three-component
//! position; two triangles over those vertices cover the quad. Every
//! coordinate of the quad is a whole multiple of one half, so positions are
//! stated in half-units: a component of `1` stands for one half in clip
//! space, `-1` for minus one half, `0` for zero. The windowing layer divides
//! by [`COORD_HALF_UNITS_PER_UNIT`] when it uploads the buffer.

use vstd::prelude::*;

verus! {

/// How many vertices the quad has.
pub const QUAD_VERTEX_COUNT: usize = 4;

/// How many components one vertex position has.
pub const COMPONENTS_PER_VERTEX: usize = 3;

/// How many half-units make one clip-space unit.
pub const COORD_HALF_UNITS_PER_UNIT: i32 = 2;

/// How many bytes one vertex component occupies on the GPU (a 32-bit float).
pub const COMPONENT_BYTES: usize = 4;

/// How many bytes one vertex index occupies on the GPU (a 32-bit unsigned
/// integer). The index buffer is sized from this, the index element's own
/// width, not from the width of a vertex component.
pub const INDEX_BYTES: usize = 4;

/// The quad's vertex positions in half-units, one vertex per row:
/// top right, bottom right, bottom left, top left.
pub open spec fn spec_quad_vertices() -> Seq<i32> {
    seq![
        1i32, 1i32, 0i32,
        1i32, -1i32, 0i32,
        -1i32, -1i32, 0i32,
        -1i32, 1i32, 0i32,
    ]
}

/// The index buffer: two triangles over the four vertices.
pub open spec fn spec_quad_indices() -> Seq<u32> {
    seq![0, 1, 3, 1, 2, 3]
}

/// The quad's vertex positions in half-units, flattened in vertex order.
pub fn quad_vertices() -> (v: Vec<i32>)
    ensures
        v@ == spec_quad_vertices(),
        v@.len() == QUAD_VERTEX_COUNT * COMPONENTS_PER_VERTEX,
{
    let mut v: Vec<i32> = Vec::new();
    v.push(1);
    v.push(1);
    v.push(0);
    v.push(1);
    v.push(-1);
    v.push(0);
    v.push(-1);
    v.push(-1);
    v.push(0);
    v.push(-1);
    v.push(1);
    v.push(0);
    proof {
        assert(v@ =~= spec_quad_vertices());
    }
    v
}

/// The index buffer: triangles (0, 1, 3) and (1, 2, 3) over the four
/// vertices.
pub fn quad_indices() -> (ix: Vec<u32>)
    ensures
        ix@ == spec_quad_indices(),
        ix@.len() == 6,
{
    let mut ix: Vec<u32> = Vec::new();
    ix.push(0);
    ix.push(1);
    ix.push(3);
    ix.push(1);
    ix.push(2);
    ix.push(3);
    proof {
        assert(ix@ =~= spec_quad_indices());
    }
    ix
}

/// Every index of the index buffer names one of the quad's four vertices.
pub proof fn lemma_indices_in_bounds()
    ensures
        forall|i: int|
            0 <= i < spec_quad_indices().len() ==> spec_quad_indices()[i]
                < QUAD_VERTEX_COUNT as u32,
{
}

/// Every vertex coordinate lies within one clip-space unit of the origin
/// (one unit is [`COORD_HALF_UNITS_PER_UNIT`] half-units), so the whole quad
/// is visible.
pub proof fn lemma_vertices_in_clip_space()
    ensures
        forall|i: int|
            0 <= i < spec_quad_vertices().len() ==> -COORD_HALF_UNITS_PER_UNIT <= #[trigger] spec_quad_vertices()[i] <= COORD_HALF_UNITS_PER_UNIT,
{
}

/// The byte size of the vertex buffer upload: one 32-bit float per
/// component.
pub fn vertex_buffer_byte_len(components: usize) -> (n: usize)
    requires
        components * COMPONENT_BYTES <= usize::MAX,
    ensures
        n == components * COMPONENT_BYTES,
{
    components * COMPONENT_BYTES
}

/// The byte size of the index buffer upload: one 32-bit unsigned integer per
/// index.
pub fn index_buffer_byte_len(indices: usize) -> (n: usize)
    requires
        indices * INDEX_BYTES <= usize::MAX,
    ensures
        n == indices * INDEX_BYTES,
{
    indices * INDEX_BYTES
}

/// How one vertex attribute is read out of the vertex buffer.
#[derive(Clone, Copy, Debug, PartialEq, Eq, Structural)]
pub struct VertexAttribute {
    /// The attribute slot the shader reads (`location` in the shader source).
    pub location: u32,
    /// How many components the attribute has.
    pub components: usize,
    /// The distance in bytes between two consecutive vertices.
    pub stride_bytes: usize,
    /// The offset in bytes of the attribute within one vertex.
    pub offset_bytes: usize,
    /// Whether fixed-point values are normalized when read.
    pub normalized: bool,
}

/// The quad's single vertex attribute: the three-component position at slot
/// zero, tightly packed, not normalized.
pub fn position_attribute() -> (a: VertexAttribute)
    ensures
        a.location == 0,
        a.components == COMPONENTS_PER_VERTEX,
        a.stride_bytes == COMPONENTS_PER_VERTEX * COMPONENT_BYTES,
        a.offset_bytes == 0,
        !a.normalized,
{
    VertexAttribute {
        location: 0,
        components: COMPONENTS_PER_VERTEX,
        stride_bytes: COMPONENTS_PER_VERTEX * COMPONENT_BYTES,
        offset_bytes: 0,
        normalized: false,
    }
}

} // verus!
