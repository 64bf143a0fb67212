use vstd::prelude::*;
use crate::render::bytes::u32_le_bytes;
use crate::render::bytes::push_u32_le;

verus! {

/// One mesh corner: a position and a color, each three 32-bit floats.
/// The floats are carried as their IEEE-754 bit patterns, so that the
/// layout and the byte stream consumed by the GPU can be stated
/// exactly; the unverified shell converts to and from `f32` at the
/// boundary.
#[derive(Clone, Copy, Debug)]
pub struct Vertex {
    position: [u32; 3],
    color: [u32; 3],
}

/// The mathematical value of a `Vertex`: the two triples of float bits.
pub struct VertexModel {
    pub position: Seq<u32>,
    pub color: Seq<u32>,
}

impl View for Vertex {
    type V = VertexModel;

    closed spec fn view(&self) -> VertexModel {
        VertexModel { position: self.position@, color: self.color@ }
    }
}

impl Vertex {
    pub fn new(position: [u32; 3], color: [u32; 3]) -> (v: Vertex)
        ensures
            v@.position == position@,
            v@.color == color@,
    {
        Vertex { position, color }
    }

    /// The position bits, exactly as given to `new`.
    pub fn position(&self) -> (p: [u32; 3])
        ensures
            p@ == self@.position,
    {
        self.position
    }

    /// The color bits, exactly as given to `new`.
    pub fn color(&self) -> (c: [u32; 3])
        ensures
            c@ == self@.color,
    {
        self.color
    }

    /// The GPU-side layout of one vertex record: 24 bytes per vertex,
    /// advanced once per vertex, position at offset 0 bound to shader
    /// location 0 and color at offset 12 bound to shader location 1,
    /// each a triple of 32-bit floats.
    pub fn desc() -> (d: VertexBufferLayout)
        ensures
            d@ == spec_vertex_layout(),
    {
        let mut attributes: Vec<VertexAttribute> = Vec::new();
        attributes.push(VertexAttribute { offset: 0, shader_location: 0, format: VertexFormat::Float3 });
        attributes.push(VertexAttribute { offset: 12, shader_location: 1, format: VertexFormat::Float3 });
        let d = VertexBufferLayout { stride: VERTEX_STRIDE, step_mode: StepMode::PerVertex, attributes };
        proof {
            assert(d@.attributes =~= spec_vertex_layout().attributes);
            assert(d@ =~~= spec_vertex_layout());
        }
        d
    }
}

/// The number of bytes one vertex occupies in the vertex buffer.
pub const VERTEX_STRIDE: u64 = 24;

/// The element type of one vertex attribute.
#[derive(Clone, Copy, Debug, PartialEq, Eq, Structural)]
pub enum VertexFormat {
    Float3,
}

/// How the GPU steps through a vertex buffer.
#[derive(Clone, Copy, Debug, PartialEq, Eq, Structural)]
pub enum StepMode {
    PerVertex,
}

/// One attribute of the vertex record, as the pipeline sees it.
#[derive(Clone, Copy, Debug, PartialEq, Eq, Structural)]
pub struct VertexAttribute {
    pub offset: u64,
    pub shader_location: u32,
    pub format: VertexFormat,
}

/// The full layout of the vertex buffer.
pub struct VertexBufferLayout {
    pub stride: u64,
    pub step_mode: StepMode,
    pub attributes: Vec<VertexAttribute>,
}

/// The mathematical value of a `VertexBufferLayout`.
#[verifier::ext_equal]
pub struct VertexLayoutModel {
    pub stride: u64,
    pub step_mode: StepMode,
    pub attributes: Seq<VertexAttribute>,
}

impl View for VertexBufferLayout {
    type V = VertexLayoutModel;

    open spec fn view(&self) -> VertexLayoutModel {
        VertexLayoutModel {
            stride: self.stride,
            step_mode: self.step_mode,
            attributes: self.attributes@,
        }
    }
}

/// The one vertex layout this scaffold uses; see `Vertex::desc`.
pub open spec fn spec_vertex_layout() -> VertexLayoutModel {
    VertexLayoutModel {
        stride: VERTEX_STRIDE,
        step_mode: StepMode::PerVertex,
        attributes: seq![
            VertexAttribute { offset: 0, shader_location: 0, format: VertexFormat::Float3 },
            VertexAttribute { offset: 12, shader_location: 1, format: VertexFormat::Float3 },
        ],
    }
}

/// The 24 bytes of one vertex record: position then color, each
/// component in little-endian order.
pub open spec fn vertex_bytes(v: VertexModel) -> Seq<u8> {
    u32_le_bytes(v.position[0]) + u32_le_bytes(v.position[1]) + u32_le_bytes(v.position[2])
        + u32_le_bytes(v.color[0]) + u32_le_bytes(v.color[1]) + u32_le_bytes(v.color[2])
}

/// The byte stream of a whole vertex list, record after record.
pub open spec fn vertices_bytes(vs: Seq<Vertex>) -> Seq<u8>
    decreases vs.len(),
{
    if vs.len() == 0 {
        Seq::empty()
    } else {
        vertex_bytes(vs[0]@) + vertices_bytes(vs.drop_first())
    }
}

pub proof fn lemma_vertices_bytes_push(s: Seq<Vertex>, v: Vertex)
    ensures
        vertices_bytes(s.push(v)) == vertices_bytes(s) + vertex_bytes(v@),
    decreases s.len(),
{
    let sv = s.push(v);
    if s.len() == 0 {
        assert(sv[0] == v);
        assert(sv.drop_first() =~= Seq::<Vertex>::empty());
        assert(vertices_bytes(sv.drop_first()) == Seq::<u8>::empty());
        assert(vertices_bytes(sv) == vertex_bytes(v@) + Seq::<u8>::empty());
        assert(vertices_bytes(sv) =~= vertex_bytes(v@));
        assert(vertices_bytes(s) == Seq::<u8>::empty());
        assert(vertices_bytes(s) + vertex_bytes(v@) =~= vertex_bytes(v@));
    } else {
        lemma_vertices_bytes_push(s.drop_first(), v);
        assert(sv[0] == s[0]);
        assert(sv.drop_first() =~= s.drop_first().push(v));
        assert(vertices_bytes(sv) == vertex_bytes(s[0]@) + vertices_bytes(sv.drop_first()));
        assert(vertices_bytes(sv.drop_first()) == vertices_bytes(s.drop_first()) + vertex_bytes(v@));
        assert(vertices_bytes(s) == vertex_bytes(s[0]@) + vertices_bytes(s.drop_first()));
        assert(vertices_bytes(sv) =~= vertices_bytes(s) + vertex_bytes(v@));
    }
}

pub proof fn lemma_vertices_bytes_len(vs: Seq<Vertex>)
    ensures
        vertices_bytes(vs).len() == VERTEX_STRIDE * vs.len(),
    decreases vs.len(),
{
    if vs.len() > 0 {
        lemma_vertices_bytes_len(vs.drop_first());
    }
}

/// The vertex list as the GPU vertex buffer holds it: each record
/// encoded in place, 24 bytes per vertex.
pub fn encode_vertices(vs: &Vec<Vertex>) -> (bytes: Vec<u8>)
    ensures
        bytes@ == vertices_bytes(vs@),
        bytes@.len() == VERTEX_STRIDE * vs@.len(),
{
    let mut bytes: Vec<u8> = Vec::new();
    let mut i: usize = 0;
    while i < vs.len()
        invariant
            i <= vs@.len(),
            bytes@ == vertices_bytes(vs@.take(i as int)),
        decreases vs@.len() - i,
    {
        let v = vs[i];
        push_u32_le(&mut bytes, v.position[0]);
        push_u32_le(&mut bytes, v.position[1]);
        push_u32_le(&mut bytes, v.position[2]);
        push_u32_le(&mut bytes, v.color[0]);
        push_u32_le(&mut bytes, v.color[1]);
        push_u32_le(&mut bytes, v.color[2]);
        proof {
            assert(vs@.take(i + 1) =~= vs@.take(i as int).push(vs@[i as int]));
            lemma_vertices_bytes_push(vs@.take(i as int), vs@[i as int]);
            assert(bytes@ =~= vertices_bytes(vs@.take(i as int)) + vertex_bytes(vs@[i as int]@));
        }
        i += 1;
    }
    proof {
        assert(vs@.take(vs@.len() as int) =~= vs@);
        lemma_vertices_bytes_len(vs@);
    }
    bytes
}

} // verus!
