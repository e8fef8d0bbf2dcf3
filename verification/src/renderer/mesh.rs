//! The quad mesh: four vertices and six indices forming two
//! counter-clockwise triangles, built once and never mutated. Re-scaling a
//! sprite is done through its instance transform, not by rebuilding a mesh.

use crate::bytes::{le2, le4, push_le2, push_le4};
use crate::scalar::{F32_ONE, F32_ZERO};
use vstd::prelude::*;

verus! {

/// One mesh vertex: a screen-space position and a texture coordinate, each
/// a pair of single-precision bit patterns.
#[derive(Debug, Clone, Copy, PartialEq)]
pub struct Vertex {
    pub position: [u32; 2],
    pub uv: [u32; 2],
}

/// The data format of one vertex attribute, as the shader consumes it.
#[derive(Debug, Clone, Copy, PartialEq, Eq, Structural)]
pub enum AttributeFormat {
    Float32x2,
    Float32x3,
    Uint32x2,
}

/// Whether a vertex stream advances per vertex or per instance.
#[derive(Debug, Clone, Copy, PartialEq, Eq, Structural)]
pub enum StepMode {
    Vertex,
    Instance,
}

/// One attribute of a vertex-buffer layout: its format, its byte offset
/// inside one record, and the shader location it feeds.
#[derive(Debug, Clone, Copy, PartialEq, Eq, Structural)]
pub struct VertexAttribute {
    pub format: AttributeFormat,
    pub offset: u32,
    pub shader_location: u32,
}

/// A vertex-buffer layout: the byte stride of one record, the step mode,
/// and the attributes carved out of each record.
#[derive(Debug)]
pub struct VertexBufferLayout {
    pub array_stride: u32,
    pub step_mode: StepMode,
    pub attributes: Vec<VertexAttribute>,
}

/// The sixteen little-endian bytes of one vertex record: position then uv.
pub open spec fn vertex_le(v: Vertex) -> Seq<u8> {
    le4(v.position[0]) + le4(v.position[1]) + le4(v.uv[0]) + le4(v.uv[1])
}

/// The concatenated records of a vertex sequence.
pub open spec fn vertices_le(s: Seq<Vertex>) -> Seq<u8>
    decreases s.len(),
{
    if s.len() == 0 {
        Seq::empty()
    } else {
        vertices_le(s.drop_last()) + vertex_le(s.last())
    }
}

/// The concatenated little-endian bytes of an index sequence.
pub open spec fn indices_le(s: Seq<u16>) -> Seq<u8>
    decreases s.len(),
{
    if s.len() == 0 {
        Seq::empty()
    } else {
        indices_le(s.drop_last()) + le2(s.last())
    }
}

/// Each vertex record serializes to the sixteen bytes of the layout's
/// stride.
pub proof fn lemma_vertices_le_len(s: Seq<Vertex>)
    ensures
        vertices_le(s).len() == 16 * s.len(),
    decreases s.len(),
{
    if s.len() > 0 {
        lemma_vertices_le_len(s.drop_last());
    }
}

/// Each index serializes to two bytes.
pub proof fn lemma_indices_le_len(s: Seq<u16>)
    ensures
        indices_le(s).len() == 2 * s.len(),
    decreases s.len(),
{
    if s.len() > 0 {
        lemma_indices_le_len(s.drop_last());
    }
}

/// The index list of the quad: two counter-clockwise triangles.
pub open spec fn quad_indices() -> Seq<u16> {
    seq![0u16, 1u16, 2u16, 0u16, 2u16, 3u16]
}

/// The four vertices of a `width` by `height` rectangle anchored at the
/// origin (its visual top-left; the V axis grows downward), with the unit
/// texture square mapped onto it.
pub open spec fn rect_vertices(width: u32, height: u32) -> Seq<Vertex> {
    seq![
        (Vertex { position: [F32_ZERO, F32_ZERO], uv: [F32_ZERO, F32_ZERO] }),
        (Vertex { position: [F32_ZERO, height], uv: [F32_ZERO, F32_ONE] }),
        (Vertex { position: [width, height], uv: [F32_ONE, F32_ONE] }),
        (Vertex { position: [width, F32_ZERO], uv: [F32_ONE, F32_ZERO] }),
    ]
}

impl Vertex {
    /// The layout of the per-vertex stream: sixteen-byte records, a
    /// two-float position at offset 0 feeding shader location 0 and a
    /// two-float uv at offset 8 feeding location 1 — matching `vertex_le`.
    pub fn layout() -> (r: VertexBufferLayout)
        ensures
            r.array_stride == 16,
            r.step_mode == StepMode::Vertex,
            r.attributes@ =~= seq![
                (VertexAttribute { format: AttributeFormat::Float32x2, offset: 0, shader_location: 0 }),
                (VertexAttribute { format: AttributeFormat::Float32x2, offset: 8, shader_location: 1 }),
            ],
    {
        let mut attributes: Vec<VertexAttribute> = Vec::new();
        attributes.push(
            VertexAttribute { format: AttributeFormat::Float32x2, offset: 0, shader_location: 0 },
        );
        attributes.push(
            VertexAttribute { format: AttributeFormat::Float32x2, offset: 8, shader_location: 1 },
        );
        VertexBufferLayout { array_stride: 16, step_mode: StepMode::Vertex, attributes }
    }
}

/// The quad mesh: immutable vertex and index data plus the index count the
/// renderer replicates per instance.
#[derive(Debug)]
pub struct Mesh {
    pub vertices: Vec<Vertex>,
    pub indices: Vec<u16>,
    pub num_indices: u32,
}

impl Mesh {
    /// A mesh is the quad: four rectangle vertices for some size, the fixed
    /// index list, and an index count of six.
    pub open spec fn wf(self) -> bool {
        &&& self.vertices@.len() == 4
        &&& self.indices@ == quad_indices()
        &&& self.num_indices == 6
    }

    /// Build the `width` by `height` rectangle quad (sizes are
    /// single-precision bit patterns).
    pub fn rect(width: u32, height: u32) -> (r: Mesh)
        ensures
            r.wf(),
            r.vertices@ == rect_vertices(width, height),
    {
        let mut vertices: Vec<Vertex> = Vec::new();
        vertices.push(Vertex { position: [F32_ZERO, F32_ZERO], uv: [F32_ZERO, F32_ZERO] });
        vertices.push(Vertex { position: [F32_ZERO, height], uv: [F32_ZERO, F32_ONE] });
        vertices.push(Vertex { position: [width, height], uv: [F32_ONE, F32_ONE] });
        vertices.push(Vertex { position: [width, F32_ZERO], uv: [F32_ONE, F32_ZERO] });
        let mut indices: Vec<u16> = Vec::new();
        indices.push(0);
        indices.push(1);
        indices.push(2);
        indices.push(0);
        indices.push(2);
        indices.push(3);
        proof {
            assert(vertices@ =~= rect_vertices(width, height));
            assert(indices@ =~= quad_indices());
        }
        Mesh { vertices, indices, num_indices: 6 }
    }

    /// The number of indices one instanced draw of this mesh consumes.
    pub fn num_indices(&self) -> (r: u32)
        ensures
            r == self.num_indices,
    {
        self.num_indices
    }

    /// The vertex buffer contents: the little-endian records of `vertex_le`,
    /// in vertex order, ready for upload.
    pub fn vertex_bytes(&self) -> (r: Vec<u8>)
        ensures
            r@ == vertices_le(self.vertices@),
            r@.len() == 16 * self.vertices@.len(),
    {
        let mut out: Vec<u8> = Vec::new();
        let n = self.vertices.len();
        for i in 0..n
            invariant
                n == self.vertices@.len(),
                out@ == vertices_le(self.vertices@.take(i as int)),
        {
            let v = self.vertices[i];
            push_le4(&mut out, v.position[0]);
            push_le4(&mut out, v.position[1]);
            push_le4(&mut out, v.uv[0]);
            push_le4(&mut out, v.uv[1]);
            proof {
                let taken = self.vertices@.take(i + 1);
                assert(taken.drop_last() =~= self.vertices@.take(i as int));
                assert(taken.last() == self.vertices@[i as int]);
                assert(out@ =~= vertices_le(taken));
            }
        }
        proof {
            assert(self.vertices@.take(n as int) =~= self.vertices@);
            lemma_vertices_le_len(self.vertices@);
        }
        out
    }

    /// The index buffer contents: each index as two little-endian bytes.
    pub fn index_bytes(&self) -> (r: Vec<u8>)
        ensures
            r@ == indices_le(self.indices@),
            r@.len() == 2 * self.indices@.len(),
    {
        let mut out: Vec<u8> = Vec::new();
        let n = self.indices.len();
        for i in 0..n
            invariant
                n == self.indices@.len(),
                out@ == indices_le(self.indices@.take(i as int)),
        {
            push_le2(&mut out, self.indices[i]);
            proof {
                let taken = self.indices@.take(i + 1);
                assert(taken.drop_last() =~= self.indices@.take(i as int));
                assert(taken.last() == self.indices@[i as int]);
                assert(out@ =~= indices_le(taken));
            }
        }
        proof {
            assert(self.indices@.take(n as int) =~= self.indices@);
            lemma_indices_le_len(self.indices@);
        }
        out
    }
}

} // verus!
