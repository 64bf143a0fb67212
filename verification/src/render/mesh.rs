use vstd::prelude::*;
use crate::render::Render;
use crate::render::bytes::u16_le_bytes;
use crate::render::bytes::push_u16_le;
use crate::render::state::BindGroupEntry;
use crate::render::state::BufferModel;
use crate::render::state::BufferUsage;
use crate::render::state::GraphicsModel;
use crate::render::state::GraphicsState;
use crate::render::state::RenderCommand;
use crate::render::state::clear_color;
use crate::render::state::spec_clear_color;
use crate::render::vertex::Vertex;
use crate::render::vertex::encode_vertices;
use crate::render::vertex::vertices_bytes;

verus! {

/// The byte stream of an index list, each index in little-endian
/// order, two bytes per index.
pub open spec fn indices_bytes(is: Seq<u16>) -> Seq<u8>
    decreases is.len(),
{
    if is.len() == 0 {
        Seq::empty()
    } else {
        u16_le_bytes(is[0]) + indices_bytes(is.drop_first())
    }
}

pub proof fn lemma_indices_bytes_push(s: Seq<u16>, x: u16)
    ensures
        indices_bytes(s.push(x)) == indices_bytes(s) + u16_le_bytes(x),
    decreases s.len(),
{
    let sx = s.push(x);
    if s.len() == 0 {
        assert(sx[0] == x);
        assert(sx.drop_first() =~= Seq::<u16>::empty());
        assert(indices_bytes(sx.drop_first()) == Seq::<u8>::empty());
        assert(indices_bytes(sx) == u16_le_bytes(x) + Seq::<u8>::empty());
        assert(indices_bytes(sx) =~= u16_le_bytes(x));
        assert(indices_bytes(s) == Seq::<u8>::empty());
        assert(indices_bytes(s) + u16_le_bytes(x) =~= u16_le_bytes(x));
    } else {
        lemma_indices_bytes_push(s.drop_first(), x);
        assert(sx[0] == s[0]);
        assert(sx.drop_first() =~= s.drop_first().push(x));
        assert(indices_bytes(sx) == u16_le_bytes(s[0]) + indices_bytes(sx.drop_first()));
        assert(indices_bytes(sx.drop_first()) == indices_bytes(s.drop_first()) + u16_le_bytes(x));
        assert(indices_bytes(s) == u16_le_bytes(s[0]) + indices_bytes(s.drop_first()));
        assert(indices_bytes(sx) =~= indices_bytes(s) + u16_le_bytes(x));
    }
}

pub proof fn lemma_indices_bytes_len(is: Seq<u16>)
    ensures
        indices_bytes(is).len() == 2 * is.len(),
    decreases is.len(),
{
    if is.len() > 0 {
        lemma_indices_bytes_len(is.drop_first());
    }
}

/// The index list as the GPU index buffer holds it: two bytes per
/// index, little-endian.
pub fn encode_indices(is: &Vec<u16>) -> (bytes: Vec<u8>)
    ensures
        bytes@ == indices_bytes(is@),
        bytes@.len() == 2 * is@.len(),
{
    let mut bytes: Vec<u8> = Vec::new();
    let mut i: usize = 0;
    while i < is.len()
        invariant
            i <= is@.len(),
            bytes@ == indices_bytes(is@.take(i as int)),
        decreases is@.len() - i,
    {
        push_u16_le(&mut bytes, is[i]);
        proof {
            assert(is@.take(i + 1) =~= is@.take(i as int).push(is@[i as int]));
            lemma_indices_bytes_push(is@.take(i as int), is@[i as int]);
        }
        i += 1;
    }
    proof {
        assert(is@.take(is@.len() as int) =~= is@);
        lemma_indices_bytes_len(is@);
    }
    bytes
}

/// A triangle mesh: its CPU-side vertex and index lists, and the
/// handles of the GPU-side buffers, each created at most once by the
/// first render call and reused by every later one.
pub struct Mesh {
    pub vertices: Vec<Vertex>,
    pub indices: Vec<u16>,
    pub vertex_buffer: Option<usize>,
    pub index_buffer: Option<usize>,
}

/// The mathematical value of a `Mesh`.
#[verifier::ext_equal]
pub struct MeshModel {
    pub vertices: Seq<Vertex>,
    pub indices: Seq<u16>,
    pub vertex_buffer: Option<usize>,
    pub index_buffer: Option<usize>,
}

impl View for Mesh {
    type V = MeshModel;

    open spec fn view(&self) -> MeshModel {
        MeshModel {
            vertices: self.vertices@,
            indices: self.indices@,
            vertex_buffer: self.vertex_buffer,
            index_buffer: self.index_buffer,
        }
    }
}

/// The mesh after one render call: each missing buffer handle is
/// filled with the next free handle of the context, the vertex buffer
/// first; handles that already exist are kept as they are.
pub open spec fn mesh_after_render(m: MeshModel, g: GraphicsModel) -> MeshModel {
    MeshModel {
        vertex_buffer: if m.vertex_buffer is Some {
            m.vertex_buffer
        } else {
            Some(g.buffers.len() as usize)
        },
        index_buffer: if m.index_buffer is Some {
            m.index_buffer
        } else if m.vertex_buffer is Some {
            Some(g.buffers.len() as usize)
        } else {
            Some((g.buffers.len() + 1) as usize)
        },
        ..m
    }
}

/// The buffers one render call creates: a vertex buffer holding the
/// encoded vertex list if the mesh has none yet, then an index buffer
/// holding the encoded index list if the mesh has none yet.
pub open spec fn created_buffers(m: MeshModel) -> Seq<BufferModel> {
    let v = if m.vertex_buffer is None {
        seq![BufferModel { usage: BufferUsage::Vertex, contents: vertices_bytes(m.vertices) }]
    } else {
        Seq::<BufferModel>::empty()
    };
    let i = if m.index_buffer is None {
        seq![BufferModel { usage: BufferUsage::Index, contents: indices_bytes(m.indices) }]
    } else {
        Seq::<BufferModel>::empty()
    };
    v + i
}

/// The fixed steps of one frame: acquire an image, one render pass
/// that clears to near-black and stores, the pipeline, the uniform
/// bind group at slot 0, the vertex buffer at slot 0, the index
/// buffer, one indexed draw over `0..index_count` with no base-vertex
/// offset and one instance, end the pass, submit.
pub open spec fn frame_commands(
    vertex_buffer: usize,
    index_buffer: usize,
    uniform_bind_group: usize,
    index_count: usize,
) -> Seq<RenderCommand> {
    seq![
        RenderCommand::AcquireFrame,
        RenderCommand::BeginRenderPass { clear: spec_clear_color() },
        RenderCommand::SetPipeline,
        RenderCommand::SetBindGroup { slot: 0u32, group: uniform_bind_group },
        RenderCommand::SetVertexBuffer { slot: 0u32, buffer: vertex_buffer },
        RenderCommand::SetIndexBuffer { buffer: index_buffer },
        RenderCommand::DrawIndexed {
            index_start: 0usize,
            index_end: index_count,
            base_vertex: 0i32,
            instances: 1u32,
        },
        RenderCommand::EndRenderPass,
        RenderCommand::Submit,
    ]
}

/// The context after one render call by mesh `m`: the created buffers
/// are appended to the record, the frame's steps are appended to the
/// command log, and nothing else changes.
pub open spec fn graphics_after_render(m: MeshModel, g: GraphicsModel) -> GraphicsModel {
    let m1 = mesh_after_render(m, g);
    GraphicsModel {
        buffers: g.buffers + created_buffers(m),
        commands: g.commands + frame_commands(
            m1.vertex_buffer->Some_0,
            m1.index_buffer->Some_0,
            g.uniform_bind_group,
            m.indices.len() as usize,
        ),
        ..g
    }
}

impl Mesh {
    pub fn new(vertices: Vec<Vertex>, indices: Vec<u16>) -> (m: Mesh)
        ensures
            m@.vertices == vertices@,
            m@.indices == indices@,
            m@.vertex_buffer is None,
            m@.index_buffer is None,
    {
        Mesh { vertices, indices, vertex_buffer: None, index_buffer: None }
    }

    /// Renders the mesh: creates whichever GPU buffers are still
    /// missing — at most once over the mesh's life — and records the
    /// fixed frame sequence against the context.
    pub fn render(&mut self, graphics: &mut GraphicsState)
        ensures
            final(self)@ == mesh_after_render(old(self)@, old(graphics)@),
            final(graphics)@ == graphics_after_render(old(self)@, old(graphics)@),
            old(self)@.vertex_buffer is Some ==> final(self)@.vertex_buffer == old(self)@.vertex_buffer,
            old(self)@.index_buffer is Some ==> final(self)@.index_buffer == old(self)@.index_buffer,
            old(self)@.vertex_buffer is Some && old(self)@.index_buffer is Some
                ==> final(graphics)@.buffers == old(graphics)@.buffers,
    {
        if self.vertex_buffer.is_none() {
            let data = encode_vertices(&self.vertices);
            let id = graphics.create_buffer(data, BufferUsage::Vertex);
            self.vertex_buffer = Some(id);
        }
        if self.index_buffer.is_none() {
            let data = encode_indices(&self.indices);
            let id = graphics.create_buffer(data, BufferUsage::Index);
            self.index_buffer = Some(id);
        }
        let vb = self.vertex_buffer.unwrap();
        let ib = self.index_buffer.unwrap();
        let group = graphics.uniform_bind_group;
        let index_count = self.indices.len();
        graphics.record(RenderCommand::AcquireFrame);
        let clear = clear_color();
        graphics.record(RenderCommand::BeginRenderPass { clear });
        graphics.record(RenderCommand::SetPipeline);
        graphics.record(RenderCommand::SetBindGroup { slot: 0, group });
        graphics.record(RenderCommand::SetVertexBuffer { slot: 0, buffer: vb });
        graphics.record(RenderCommand::SetIndexBuffer { buffer: ib });
        graphics.record(RenderCommand::DrawIndexed {
            index_start: 0,
            index_end: index_count,
            base_vertex: 0,
            instances: 1,
        });
        graphics.record(RenderCommand::EndRenderPass);
        graphics.record(RenderCommand::Submit);
        proof {
            assert(self@ =~~= mesh_after_render(old(self)@, old(graphics)@));
            assert(graphics@.buffers =~= old(graphics)@.buffers + created_buffers(old(self)@));
            assert(graphics@.commands =~= old(graphics)@.commands + frame_commands(
                vb,
                ib,
                old(graphics)@.uniform_bind_group,
                old(self)@.indices.len() as usize,
            ));
            assert(graphics@ =~~= graphics_after_render(old(self)@, old(graphics)@));
            if old(self)@.vertex_buffer is Some && old(self)@.index_buffer is Some {
                assert(graphics@.buffers =~= old(graphics)@.buffers);
            }
        }
    }
}

impl Render for Mesh {
    fn render(&mut self, graphics: &mut GraphicsState) {
        Mesh::render(self, graphics)
    }
}

/// Law: once a render call has given a mesh its buffer pair, a second
/// render call keeps both handles exactly as they are and creates no
/// further buffers.
pub proof fn lemma_render_twice_reuses_buffers(m: MeshModel, g: GraphicsModel)
    ensures
        ({
            let m1 = mesh_after_render(m, g);
            let g1 = graphics_after_render(m, g);
            &&& mesh_after_render(m1, g1) == m1
            &&& graphics_after_render(m1, g1).buffers == g1.buffers
        }),
{
    let m1 = mesh_after_render(m, g);
    let g1 = graphics_after_render(m, g);
    assert(m1.vertex_buffer is Some && m1.index_buffer is Some);
    assert(mesh_after_render(m1, g1) =~~= m1);
    assert(created_buffers(m1) =~= Seq::<BufferModel>::empty());
    assert(graphics_after_render(m1, g1).buffers =~= g1.buffers);
}

/// Law: a render call keeps the context well-formed: it only appends
/// buffers and commands, so the uniform buffer, its bind group and the
/// swapchain stay exactly in place.
pub proof fn lemma_render_preserves_wf(m: MeshModel, g: GraphicsModel)
    requires
        g.wf(),
    ensures
        graphics_after_render(m, g).wf(),
{
    let g1 = graphics_after_render(m, g);
    assert(g1.buffers[g.uniform_buffer as int] == g.buffers[g.uniform_buffer as int]);
}

/// Law: the draw a render call records binds the context's current
/// uniform bind group at slot 0, and in a well-formed context that
/// group binds the context's current uniform buffer at binding 0 —
/// never a stale copy.
pub proof fn lemma_render_binds_current_uniforms(m: MeshModel, g: GraphicsModel)
    requires
        g.wf(),
    ensures
        ({
            let g1 = graphics_after_render(m, g);
            &&& g1.commands[g.commands.len() as int + 3]
                == (RenderCommand::SetBindGroup { slot: 0u32, group: g1.uniform_bind_group })
            &&& g1.uniform_bind_group == g.uniform_bind_group
            &&& g1.uniform_buffer == g.uniform_buffer
            &&& g1.bind_groups[g1.uniform_bind_group as int]
                == seq![BindGroupEntry { binding: 0u32, buffer: g1.uniform_buffer }]
        }),
{
    let g1 = graphics_after_render(m, g);
    let m1 = mesh_after_render(m, g);
    let frame = frame_commands(
        m1.vertex_buffer->Some_0,
        m1.index_buffer->Some_0,
        g.uniform_bind_group,
        m.indices.len() as usize,
    );
    assert(g1.commands[g.commands.len() as int + 3] == frame[3]);
}

} // verus!
