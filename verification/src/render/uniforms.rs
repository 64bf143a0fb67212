use vstd::prelude::*;
use crate::render::bytes::u32_le_bytes;
use crate::render::bytes::push_u32_le;
use crate::render::state::BindingType;
use crate::render::state::BindGroupLayout;
use crate::render::state::BindGroupLayoutEntry;
use crate::render::state::BufferUsage;
use crate::render::state::GraphicsState;
use crate::render::state::GraphicsModel;
use crate::render::state::BufferModel;
use crate::render::state::ShaderStage;

verus! {

/// The uniform block visible to the fragment shader: one RGB color,
/// three 32-bit floats carried as their IEEE-754 bit patterns. The
/// unverified shell converts to and from `f32` at the boundary.
#[derive(Clone, Copy, Debug)]
pub struct Uniforms {
    pub color: [u32; 3],
}

/// The 12 bytes of a uniform block whose color bits are `color`, each
/// component in little-endian order.
pub open spec fn uniform_bytes(color: Seq<u32>) -> Seq<u8> {
    u32_le_bytes(color[0]) + u32_le_bytes(color[1]) + u32_le_bytes(color[2])
}

impl Uniforms {
    /// A fresh block, cleared to black: every component is the float
    /// zero, whose bit pattern is zero.
    pub fn new() -> (u: Uniforms)
        ensures
            u.color@ == seq![0u32, 0u32, 0u32],
    {
        let u = Uniforms { color: [0, 0, 0] };
        proof {
            assert(u.color@ =~= seq![0u32, 0u32, 0u32]);
        }
        u
    }

    /// The block as the GPU uniform buffer holds it.
    pub fn to_bytes(&self) -> (bytes: Vec<u8>)
        ensures
            bytes@ == uniform_bytes(self.color@),
            bytes@.len() == 12,
    {
        let mut bytes: Vec<u8> = Vec::new();
        push_u32_le(&mut bytes, self.color[0]);
        push_u32_le(&mut bytes, self.color[1]);
        push_u32_le(&mut bytes, self.color[2]);
        bytes
    }

    /// Creates the GPU buffer that backs this block: its contents are
    /// the block's current bytes, tagged for uniform use and for later
    /// copy-writes.
    pub fn buffer(&self, graphics: &mut GraphicsState) -> (id: usize)
        ensures
            id == old(graphics)@.buffers.len(),
            final(graphics)@ == (GraphicsModel {
                buffers: old(graphics)@.buffers.push(BufferModel {
                    usage: BufferUsage::Uniform,
                    contents: uniform_bytes(self.color@),
                }),
                ..old(graphics)@
            }),
    {
        let bytes = self.to_bytes();
        graphics.create_buffer(bytes, BufferUsage::Uniform)
    }

    /// The layout of the bind group that carries this block: a single
    /// uniform-buffer binding at slot 0, visible to the fragment stage
    /// only, not dynamically offset.
    pub fn bind_group_layout(&self) -> (layout: BindGroupLayout)
        ensures
            layout.entries@.len() == 1,
            layout.entries@[0] == (BindGroupLayoutEntry {
                binding: 0,
                visibility: ShaderStage::Fragment,
                ty: BindingType::UniformBuffer { dynamic: false },
            }),
    {
        let mut entries: Vec<BindGroupLayoutEntry> = Vec::new();
        entries.push(BindGroupLayoutEntry {
            binding: 0,
            visibility: ShaderStage::Fragment,
            ty: BindingType::UniformBuffer { dynamic: false },
        });
        BindGroupLayout { entries }
    }
}

} // verus!
