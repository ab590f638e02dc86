//! Layout of mesh vertices in a GPU buffer, and how a mesh is drawn.

use vstd::prelude::*;

verus! {

/// Bytes in one vertex component (a 32-bit float).
pub const COMPONENT_BYTES: u64 = 4;

/// The format of one vertex attribute: two or three 32-bit float components.
#[derive(Clone, Copy, Debug, PartialEq, Eq, Structural)]
pub enum AttributeFormat {
    Float2,
    Float3,
}

/// Bytes that one attribute of format `f` takes.
pub open spec fn format_bytes(f: AttributeFormat) -> nat {
    match f {
        AttributeFormat::Float2 => (2 * COMPONENT_BYTES) as nat,
        AttributeFormat::Float3 => (3 * COMPONENT_BYTES) as nat,
    }
}

/// Bytes that the attributes `fs` take, packed one after the other.
pub open spec fn packed_bytes(fs: Seq<AttributeFormat>) -> nat
    decreases fs.len(),
{
    if fs.len() == 0 {
        0
    } else {
        packed_bytes(fs.drop_last()) + format_bytes(fs.last())
    }
}

/// One attribute of a vertex buffer layout.
#[derive(Clone, Copy, Debug, PartialEq, Eq, Structural)]
pub struct VertexAttribute {
    pub offset: u64,
    pub shader_location: u32,
    pub format: AttributeFormat,
}

/// The stride of one vertex and where each of its attributes starts.
#[derive(Clone, Debug)]
pub struct VertexLayout {
    pub array_stride: u64,
    pub attributes: Vec<VertexAttribute>,
}

fn bytes_of(f: AttributeFormat) -> (b: u64)
    ensures
        b == format_bytes(f),
{
    match f {
        AttributeFormat::Float2 => 2 * COMPONENT_BYTES,
        AttributeFormat::Float3 => 3 * COMPONENT_BYTES,
    }
}

/// Packs the attributes `formats` one after the other, with no padding: attribute `k`
/// is bound to shader location `k` and starts where the ones before it end; the stride
/// is the size of them all.
pub fn vertex_layout(formats: &Vec<AttributeFormat>) -> (l: VertexLayout)
    requires
        formats.len() <= u32::MAX,
    ensures
        l.array_stride == packed_bytes(formats@),
        l.attributes.len() == formats.len(),
        forall|k: int|
            0 <= k < formats.len() ==> (#[trigger] l.attributes[k]) == (VertexAttribute {
                offset: packed_bytes(formats@.take(k)) as u64,
                shader_location: k as u32,
                format: formats[k],
            }),
{
    let mut attributes: Vec<VertexAttribute> = Vec::new();
    let mut offset: u64 = 0;
    let mut k: usize = 0;
    while k < formats.len()
        invariant
            k <= formats.len() <= u32::MAX,
            attributes.len() == k,
            offset == packed_bytes(formats@.take(k as int)),
            offset <= 12 * k,
            forall|m: int|
                0 <= m < k ==> (#[trigger] attributes[m]) == (VertexAttribute {
                    offset: packed_bytes(formats@.take(m)) as u64,
                    shader_location: m as u32,
                    format: formats[m],
                }),
        decreases formats.len() - k,
    {
        let f = formats[k];
        attributes.push(VertexAttribute { offset, shader_location: k as u32, format: f });
        assert(formats@.take(k + 1).drop_last() =~= formats@.take(k as int));
        offset = offset + bytes_of(f);
        k = k + 1;
    }
    assert(formats@.take(k as int) =~= formats@);
    VertexLayout { array_stride: offset, attributes }
}

/// How a mesh is drawn.
#[derive(Clone, Copy, Debug, PartialEq, Eq, Structural)]
pub enum DrawCall {
    /// Draw the vertices `0..count` in order.
    Vertices { count: u32 },
    /// Draw through the index buffer, indices `0..count`.
    Indexed { count: u32 },
}

/// A mesh without indices is drawn vertex by vertex; one with indices is drawn
/// through them.
pub fn draw_call(num_vertices: u32, num_indices: u32) -> (d: DrawCall)
    ensures
        num_indices == 0 ==> d == (DrawCall::Vertices { count: num_vertices }),
        num_indices != 0 ==> d == (DrawCall::Indexed { count: num_indices }),
{
    if num_indices == 0 {
        DrawCall::Vertices { count: num_vertices }
    } else {
        DrawCall::Indexed { count: num_indices }
    }
}

} // verus!
