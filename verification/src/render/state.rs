use vstd::prelude::*;
use crate::render::bytes::u32_from_le_bytes;
use crate::render::uniforms::Uniforms;
use crate::render::uniforms::uniform_bytes;
use crate::render::vertex::Vertex;
use crate::render::vertex::VertexLayoutModel;
use crate::render::vertex::spec_vertex_layout;
use crate::render::vertex::VertexBufferLayout;

verus! {

/// A window size in physical pixels.
#[derive(Clone, Copy, Debug, PartialEq, Eq, Structural)]
pub struct PhysicalSize {
    pub width: u32,
    pub height: u32,
}

/// What a created GPU buffer may be used for.
#[derive(Clone, Copy, Debug, PartialEq, Eq, Structural)]
pub enum BufferUsage {
    Vertex,
    Index,
    /// Uniform use together with later copy-writes.
    Uniform,
}

/// The record kept of one created GPU buffer: what it may be used for
/// and the bytes it was created with. The unverified shell owns the
/// device-side object with the same index.
pub struct Buffer {
    pub usage: BufferUsage,
    pub contents: Vec<u8>,
}

/// The mathematical value of a `Buffer`.
#[verifier::ext_equal]
pub struct BufferModel {
    pub usage: BufferUsage,
    pub contents: Seq<u8>,
}

impl View for Buffer {
    type V = BufferModel;

    open spec fn view(&self) -> BufferModel {
        BufferModel { usage: self.usage, contents: self.contents@ }
    }
}

/// One resource binding of a bind group: the buffer bound to a shader
/// binding slot.
#[derive(Clone, Copy, Debug, PartialEq, Eq, Structural)]
pub struct BindGroupEntry {
    pub binding: u32,
    pub buffer: usize,
}

/// A bind group: the bindings it was created with.
pub struct BindGroup {
    pub entries: Vec<BindGroupEntry>,
}

/// Which shader stages see a binding.
#[derive(Clone, Copy, Debug, PartialEq, Eq, Structural)]
pub enum ShaderStage {
    Fragment,
}

/// What kind of resource a binding carries.
#[derive(Clone, Copy, Debug, PartialEq, Eq, Structural)]
pub enum BindingType {
    UniformBuffer { dynamic: bool },
}

/// One slot of a bind group layout.
#[derive(Clone, Copy, Debug, PartialEq, Eq, Structural)]
pub struct BindGroupLayoutEntry {
    pub binding: u32,
    pub visibility: ShaderStage,
    pub ty: BindingType,
}

/// The layout a bind group is created against.
pub struct BindGroupLayout {
    pub entries: Vec<BindGroupLayoutEntry>,
}

/// How swapchain images may be used.
#[derive(Clone, Copy, Debug, PartialEq, Eq, Structural)]
pub enum TextureUsage {
    OutputAttachment,
}

/// The pixel format of the swapchain.
#[derive(Clone, Copy, Debug, PartialEq, Eq, Structural)]
pub enum TextureFormat {
    Bgra8UnormSrgb,
}

/// How frames are presented; Fifo is vsync.
#[derive(Clone, Copy, Debug, PartialEq, Eq, Structural)]
pub enum PresentMode {
    Fifo,
}

/// What the swapchain is created from.
#[derive(Clone, Copy, Debug, PartialEq, Eq, Structural)]
pub struct SwapChainDescriptor {
    pub usage: TextureUsage,
    pub format: TextureFormat,
    pub width: u32,
    pub height: u32,
    pub present_mode: PresentMode,
}

/// The swapchain as created: its reported dimensions and format.
#[derive(Clone, Copy, Debug, PartialEq, Eq, Structural)]
pub struct SwapChain {
    pub width: u32,
    pub height: u32,
    pub format: TextureFormat,
}

/// The winding that counts as a front face.
#[derive(Clone, Copy, Debug, PartialEq, Eq, Structural)]
pub enum FrontFace {
    Ccw,
}

/// Which faces are culled.
#[derive(Clone, Copy, Debug, PartialEq, Eq, Structural)]
pub enum CullMode {
    Back,
}

/// How a color output is combined with what is already there.
#[derive(Clone, Copy, Debug, PartialEq, Eq, Structural)]
pub enum Blend {
    Replace,
}

/// How vertices are assembled into primitives.
#[derive(Clone, Copy, Debug, PartialEq, Eq, Structural)]
pub enum PrimitiveTopology {
    TriangleList,
}

/// The width of one index in the index buffer.
#[derive(Clone, Copy, Debug, PartialEq, Eq, Structural)]
pub enum IndexFormat {
    Uint16,
}

/// A color as four 64-bit floats, carried as their bit patterns.
#[derive(Clone, Copy, Debug, PartialEq, Eq, Structural)]
pub struct Color {
    pub r: u64,
    pub g: u64,
    pub b: u64,
    pub a: u64,
}

/// The bit pattern of the 64-bit float 0.01: each color channel of the
/// near-black clear color.
pub const CLEAR_CHANNEL_BITS: u64 = 0x3f847ae147ae147b;

/// The bit pattern of the 64-bit float 1.0: the clear color's alpha.
pub const CLEAR_ALPHA_BITS: u64 = 0x3ff0000000000000;

/// The fixed near-black color every render pass clears to.
pub open spec fn spec_clear_color() -> Color {
    Color {
        r: CLEAR_CHANNEL_BITS,
        g: CLEAR_CHANNEL_BITS,
        b: CLEAR_CHANNEL_BITS,
        a: CLEAR_ALPHA_BITS,
    }
}

/// The fixed near-black color every render pass clears to.
pub fn clear_color() -> (c: Color)
    ensures
        c == spec_clear_color(),
{
    Color {
        r: CLEAR_CHANNEL_BITS,
        g: CLEAR_CHANNEL_BITS,
        b: CLEAR_CHANNEL_BITS,
        a: CLEAR_ALPHA_BITS,
    }
}

/// One step of the per-frame GPU work, in the order the unverified
/// shell must perform it.
#[derive(Clone, Copy, Debug, PartialEq, Eq, Structural)]
pub enum RenderCommand {
    /// Acquire the next swapchain image; a timeout here is fatal.
    AcquireFrame,
    /// Begin the single render pass against the acquired image:
    /// clear it to `clear` and store the result.
    BeginRenderPass { clear: Color },
    /// Bind the context's render pipeline.
    SetPipeline,
    /// Bind the bind group `group` at bind-group slot `slot`.
    SetBindGroup { slot: u32, group: usize },
    /// Bind the buffer `buffer` at vertex-buffer slot `slot`.
    SetVertexBuffer { slot: u32, buffer: usize },
    /// Bind the buffer `buffer` as the index buffer.
    SetIndexBuffer { buffer: usize },
    /// Draw the index range `index_start..index_end`, adding
    /// `base_vertex` to each index, `instances` instances.
    DrawIndexed { index_start: usize, index_end: usize, base_vertex: i32, instances: u32 },
    /// End the render pass.
    EndRenderPass,
    /// Submit the encoded commands to the queue.
    Submit,
}

/// The fixed configuration of the one render pipeline.
pub struct RenderPipelineDescriptor {
    pub front_face: FrontFace,
    pub cull_mode: CullMode,
    pub color_format: TextureFormat,
    pub color_blend: Blend,
    pub alpha_blend: Blend,
    pub primitive_topology: PrimitiveTopology,
    pub index_format: IndexFormat,
    pub vertex_layout: VertexBufferLayout,
    pub sample_count: u32,
}

/// The mathematical value of a `RenderPipelineDescriptor`.
#[verifier::ext_equal]
pub struct PipelineModel {
    pub front_face: FrontFace,
    pub cull_mode: CullMode,
    pub color_format: TextureFormat,
    pub color_blend: Blend,
    pub alpha_blend: Blend,
    pub primitive_topology: PrimitiveTopology,
    pub index_format: IndexFormat,
    pub vertex_layout: VertexLayoutModel,
    pub sample_count: u32,
}

impl View for RenderPipelineDescriptor {
    type V = PipelineModel;

    open spec fn view(&self) -> PipelineModel {
        PipelineModel {
            front_face: self.front_face,
            cull_mode: self.cull_mode,
            color_format: self.color_format,
            color_blend: self.color_blend,
            alpha_blend: self.alpha_blend,
            primitive_topology: self.primitive_topology,
            index_format: self.index_format,
            vertex_layout: self.vertex_layout@,
            sample_count: self.sample_count,
        }
    }
}

/// The pipeline this scaffold always builds: triangle list, back-face
/// culling with counter-clockwise front winding, one color output in
/// the swapchain's format with replace blending, 16-bit indices, the
/// vertex layout of `Vertex`, no multisampling.
pub open spec fn spec_pipeline(format: TextureFormat) -> PipelineModel {
    PipelineModel {
        front_face: FrontFace::Ccw,
        cull_mode: CullMode::Back,
        color_format: format,
        color_blend: Blend::Replace,
        alpha_blend: Blend::Replace,
        primitive_topology: PrimitiveTopology::TriangleList,
        index_format: IndexFormat::Uint16,
        vertex_layout: spec_vertex_layout(),
        sample_count: 1,
    }
}

/// The mathematical value of the whole graphics context.
#[verifier::ext_equal]
pub struct GraphicsModel {
    pub sc_desc: SwapChainDescriptor,
    pub swap_chain: SwapChain,
    pub render_pipeline: PipelineModel,
    /// The color bits of the CPU-side uniform block.
    pub uniforms: Seq<u32>,
    pub uniform_buffer: usize,
    pub uniform_bind_group: usize,
    pub size: PhysicalSize,
    pub buffers: Seq<BufferModel>,
    pub bind_groups: Seq<Seq<BindGroupEntry>>,
    pub commands: Seq<RenderCommand>,
}

impl GraphicsModel {
    /// A well-formed context: the uniform buffer exists and is tagged
    /// for uniform use, the uniform bind group exists and binds exactly
    /// that buffer at binding 0, and the swapchain has the descriptor's
    /// dimensions and format.
    pub open spec fn wf(self) -> bool {
        &&& self.uniform_buffer < self.buffers.len()
        &&& self.buffers[self.uniform_buffer as int].usage == BufferUsage::Uniform
        &&& self.uniform_bind_group < self.bind_groups.len()
        &&& self.bind_groups[self.uniform_bind_group as int]
            == seq![BindGroupEntry { binding: 0u32, buffer: self.uniform_buffer }]
        &&& self.swap_chain.width == self.sc_desc.width
        &&& self.swap_chain.height == self.sc_desc.height
        &&& self.swap_chain.format == self.sc_desc.format
    }
}

/// The context after a resize to `size`: the stored size and the
/// swapchain descriptor take the new dimensions, and the swapchain is
/// recreated from that descriptor; nothing else changes.
pub open spec fn graphics_after_resize(g: GraphicsModel, size: PhysicalSize) -> GraphicsModel {
    GraphicsModel {
        sc_desc: SwapChainDescriptor { width: size.width, height: size.height, ..g.sc_desc },
        swap_chain: SwapChain { width: size.width, height: size.height, format: g.sc_desc.format },
        size: size,
        ..g
    }
}

/// The graphics context: the sole owner of all GPU resources. The
/// device-side objects themselves live in the unverified shell, which
/// keeps them indexed exactly as the `buffers` and `bind_groups`
/// records here.
pub struct GraphicsState {
    pub sc_desc: SwapChainDescriptor,
    pub swap_chain: SwapChain,
    pub render_pipeline: RenderPipelineDescriptor,
    pub uniforms: Uniforms,
    pub uniform_buffer: usize,
    pub uniform_bind_group: usize,
    pub size: PhysicalSize,
    pub buffers: Vec<Buffer>,
    pub bind_groups: Vec<BindGroup>,
    pub commands: Vec<RenderCommand>,
}

impl View for GraphicsState {
    type V = GraphicsModel;

    open spec fn view(&self) -> GraphicsModel {
        GraphicsModel {
            sc_desc: self.sc_desc,
            swap_chain: self.swap_chain,
            render_pipeline: self.render_pipeline@,
            uniforms: self.uniforms.color@,
            uniform_buffer: self.uniform_buffer,
            uniform_bind_group: self.uniform_bind_group,
            size: self.size,
            buffers: self.buffers@.map_values(|b: Buffer| b@),
            bind_groups: self.bind_groups@.map_values(|g: BindGroup| g.entries@),
            commands: self.commands@,
        }
    }
}

impl GraphicsState {
    /// Sets up a context for a window of the given physical size: a
    /// swapchain in the fixed format with vsync presentation, a fresh
    /// uniform block uploaded into buffer 0, bind group 0 binding that
    /// buffer, and the fixed render pipeline. The device, adapter and
    /// surface work happens in the unverified shell before this is
    /// called.
    pub fn new(size: PhysicalSize) -> (r: GraphicsState)
        ensures
            r@.wf(),
            r@.sc_desc == (SwapChainDescriptor {
                usage: TextureUsage::OutputAttachment,
                format: TextureFormat::Bgra8UnormSrgb,
                width: size.width,
                height: size.height,
                present_mode: PresentMode::Fifo,
            }),
            r@.swap_chain == (SwapChain {
                width: size.width,
                height: size.height,
                format: TextureFormat::Bgra8UnormSrgb,
            }),
            r@.render_pipeline == spec_pipeline(TextureFormat::Bgra8UnormSrgb),
            r@.uniforms == seq![0u32, 0u32, 0u32],
            r@.uniform_buffer == 0,
            r@.uniform_bind_group == 0,
            r@.size == size,
            r@.buffers == seq![BufferModel {
                usage: BufferUsage::Uniform,
                contents: uniform_bytes(seq![0u32, 0u32, 0u32]),
            }],
            r@.bind_groups == seq![seq![BindGroupEntry { binding: 0u32, buffer: 0usize }]],
            r@.commands == Seq::<RenderCommand>::empty(),
    {
        let sc_desc = SwapChainDescriptor {
            usage: TextureUsage::OutputAttachment,
            format: TextureFormat::Bgra8UnormSrgb,
            width: size.width,
            height: size.height,
            present_mode: PresentMode::Fifo,
        };
        let swap_chain = SwapChain {
            width: sc_desc.width,
            height: sc_desc.height,
            format: sc_desc.format,
        };
        let uniforms = Uniforms::new();
        let uniform_contents = uniforms.to_bytes();
        let mut buffers: Vec<Buffer> = Vec::new();
        buffers.push(Buffer { usage: BufferUsage::Uniform, contents: uniform_contents });
        let layout = uniforms.bind_group_layout();
        let mut entries: Vec<BindGroupEntry> = Vec::new();
        entries.push(BindGroupEntry { binding: layout.entries[0].binding, buffer: 0 });
        let mut bind_groups: Vec<BindGroup> = Vec::new();
        bind_groups.push(BindGroup { entries });
        let render_pipeline = RenderPipelineDescriptor {
            front_face: FrontFace::Ccw,
            cull_mode: CullMode::Back,
            color_format: sc_desc.format,
            color_blend: Blend::Replace,
            alpha_blend: Blend::Replace,
            primitive_topology: PrimitiveTopology::TriangleList,
            index_format: IndexFormat::Uint16,
            vertex_layout: Vertex::desc(),
            sample_count: 1,
        };
        let r = GraphicsState {
            sc_desc,
            swap_chain,
            render_pipeline,
            uniforms,
            uniform_buffer: 0,
            uniform_bind_group: 0,
            size,
            buffers,
            bind_groups,
            commands: Vec::new(),
        };
        proof {
            assert(r@.buffers =~= seq![BufferModel {
                usage: BufferUsage::Uniform,
                contents: uniform_bytes(seq![0u32, 0u32, 0u32]),
            }]);
            assert(r@.bind_groups =~= seq![seq![BindGroupEntry { binding: 0u32, buffer: 0usize }]]);
            assert(r@.bind_groups[0] =~= seq![BindGroupEntry { binding: 0u32, buffer: 0usize }]);
            assert(r@.commands =~= Seq::<RenderCommand>::empty());
            assert(r@.render_pipeline =~~= spec_pipeline(TextureFormat::Bgra8UnormSrgb));
        }
        r
    }

    /// Updates the stored size and the swapchain descriptor, and
    /// recreates the swapchain from the updated descriptor, so that
    /// the swapchain's reported dimensions are exactly the new ones.
    pub fn resize(&mut self, new_size: PhysicalSize)
        ensures
            final(self)@ == graphics_after_resize(old(self)@, new_size),
            final(self)@.swap_chain.width == new_size.width,
            final(self)@.swap_chain.height == new_size.height,
            old(self)@.wf() ==> final(self)@.wf(),
    {
        self.size = new_size;
        self.sc_desc.width = new_size.width;
        self.sc_desc.height = new_size.height;
        self.swap_chain = SwapChain {
            width: self.sc_desc.width,
            height: self.sc_desc.height,
            format: self.sc_desc.format,
        };
        proof {
            assert(self@ =~~= graphics_after_resize(old(self)@, new_size));
        }
    }

    /// Creates one GPU buffer with the given contents and use, and
    /// records it; the fresh handle is the next free index.
    pub fn create_buffer(&mut self, contents: Vec<u8>, usage: BufferUsage) -> (id: usize)
        ensures
            id == old(self)@.buffers.len(),
            final(self)@ == (GraphicsModel {
                buffers: old(self)@.buffers.push(BufferModel { usage, contents: contents@ }),
                ..old(self)@
            }),
    {
        let id = self.buffers.len();
        let ghost target = GraphicsModel {
            buffers: old(self)@.buffers.push(BufferModel { usage, contents: contents@ }),
            ..old(self)@
        };
        self.buffers.push(Buffer { usage, contents });
        proof {
            assert(self@.buffers =~= target.buffers);
            assert(self@ =~~= target);
        }
        id
    }

    /// Appends one step to the pending frame commands.
    pub(crate) fn record(&mut self, command: RenderCommand)
        ensures
            final(self)@ == (GraphicsModel {
                commands: old(self)@.commands.push(command),
                ..old(self)@
            }),
    {
        let ghost target = GraphicsModel {
            commands: old(self)@.commands.push(command),
            ..old(self)@
        };
        self.commands.push(command);
        proof {
            assert(self@ =~~= target);
        }
    }
}

/// Why a compiled shader binary was rejected.
#[derive(Clone, Copy, Debug, PartialEq, Eq, Structural)]
pub enum SpirvError {
    /// The byte length is not a multiple of four.
    NotWordAligned,
    /// The first word is not the SPIR-V magic number.
    MissingMagic,
}

/// The first word of every valid SPIR-V binary.
pub const SPIRV_MAGIC: u32 = 0x0723_0203;

/// The 32-bit words read from a byte stream in little-endian order;
/// a trailing fragment shorter than a word is dropped.
pub open spec fn spirv_words(bytes: Seq<u8>) -> Seq<u32>
    decreases bytes.len(),
{
    if bytes.len() < 4 {
        Seq::empty()
    } else {
        seq![u32_from_le_bytes(bytes[0], bytes[1], bytes[2], bytes[3])] + spirv_words(bytes.skip(4))
    }
}

pub proof fn lemma_spirv_words_append_word(bytes: Seq<u8>, b0: u8, b1: u8, b2: u8, b3: u8)
    requires
        bytes.len() % 4 == 0,
    ensures
        spirv_words(bytes + seq![b0, b1, b2, b3])
            == spirv_words(bytes).push(u32_from_le_bytes(b0, b1, b2, b3)),
    decreases bytes.len(),
{
    let ext = bytes + seq![b0, b1, b2, b3];
    if bytes.len() == 0 {
        assert(ext =~= seq![b0, b1, b2, b3]);
        assert(ext[0] == b0 && ext[1] == b1 && ext[2] == b2 && ext[3] == b3);
        assert(ext.skip(4) =~= Seq::<u8>::empty());
        assert(spirv_words(Seq::<u8>::empty()) == Seq::<u32>::empty());
        assert(spirv_words(ext)
            == seq![u32_from_le_bytes(b0, b1, b2, b3)] + Seq::<u32>::empty());
        assert(spirv_words(ext) =~= seq![u32_from_le_bytes(b0, b1, b2, b3)]);
        assert(spirv_words(bytes).push(u32_from_le_bytes(b0, b1, b2, b3))
            =~= seq![u32_from_le_bytes(b0, b1, b2, b3)]);
    } else {
        lemma_spirv_words_append_word(bytes.skip(4), b0, b1, b2, b3);
        assert(ext.skip(4) =~= bytes.skip(4) + seq![b0, b1, b2, b3]);
        assert(spirv_words(ext)
            == seq![u32_from_le_bytes(ext[0], ext[1], ext[2], ext[3])] + spirv_words(ext.skip(4)));
        assert(ext[0] == bytes[0] && ext[1] == bytes[1] && ext[2] == bytes[2] && ext[3] == bytes[3]);
        assert(spirv_words(ext)
            =~= spirv_words(bytes).push(u32_from_le_bytes(b0, b1, b2, b3)));
    }
}

pub proof fn lemma_spirv_words_len(bytes: Seq<u8>)
    ensures
        spirv_words(bytes).len() == bytes.len() / 4,
    decreases bytes.len(),
{
    if bytes.len() >= 4 {
        lemma_spirv_words_len(bytes.skip(4));
    }
}

/// Turns a compiled shader binary into the 32-bit words the device
/// consumes: the length must be word-aligned and the binary must open
/// with the SPIR-V magic number, else it is rejected.
pub fn read_spirv(data: &Vec<u8>) -> (r: Result<Vec<u32>, SpirvError>)
    ensures
        match r {
            Ok(words) => {
                &&& data@.len() % 4 == 0
                &&& data@.len() >= 4
                &&& words@ == spirv_words(data@)
                &&& words@[0] == SPIRV_MAGIC
            },
            Err(e) => match e {
                SpirvError::NotWordAligned => data@.len() % 4 != 0,
                SpirvError::MissingMagic => {
                    &&& data@.len() % 4 == 0
                    &&& (data@.len() < 4 || spirv_words(data@)[0] != SPIRV_MAGIC)
                },
            },
        },
{
    if data.len() % 4 != 0 {
        return Err(SpirvError::NotWordAligned);
    }
    let mut words: Vec<u32> = Vec::new();
    let mut i: usize = 0;
    while i < data.len()
        invariant
            i % 4 == 0,
            i <= data@.len(),
            data@.len() % 4 == 0,
            words@ == spirv_words(data@.take(i as int)),
        decreases data@.len() - i,
    {
        proof {
            assert(i + 4 <= data@.len());
        }
        let b0 = data[i];
        let b1 = data[i + 1];
        let b2 = data[i + 2];
        let b3 = data[i + 3];
        let w = (b0 as u32) | ((b1 as u32) << 8) | ((b2 as u32) << 16) | ((b3 as u32) << 24);
        words.push(w);
        proof {
            assert(w == u32_from_le_bytes(b0, b1, b2, b3));
            assert(data@.take(i + 4)
                =~= data@.take(i as int) + seq![data@[i as int], data@[i + 1], data@[i + 2], data@[i + 3]]);
            lemma_spirv_words_append_word(
                data@.take(i as int),
                data@[i as int],
                data@[i + 1],
                data@[i + 2],
                data@[i + 3],
            );
        }
        i = i + 4;
    }
    proof {
        assert(i == data@.len());
        assert(data@.take(i as int) =~= data@);
        lemma_spirv_words_len(data@);
    }
    if words.len() == 0 {
        return Err(SpirvError::MissingMagic);
    }
    if words[0] != SPIRV_MAGIC {
        return Err(SpirvError::MissingMagic);
    }
    Ok(words)
}

} // verus!
