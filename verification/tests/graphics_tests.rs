use grafica::render::state::{
    BindingType, BufferUsage, GraphicsState, PhysicalSize, PresentMode, ShaderStage, SpirvError,
    TextureFormat, TextureUsage, clear_color, read_spirv, CLEAR_ALPHA_BITS, CLEAR_CHANNEL_BITS,
    SPIRV_MAGIC,
};
use grafica::render::uniforms::Uniforms;

#[test]
fn new_context_matches_the_window_size_and_fixed_choices() {
    let g = GraphicsState::new(PhysicalSize { width: 640, height: 480 });
    assert!(g.sc_desc.usage == TextureUsage::OutputAttachment);
    assert!(g.sc_desc.format == TextureFormat::Bgra8UnormSrgb);
    assert!(g.sc_desc.present_mode == PresentMode::Fifo);
    assert_eq!(g.sc_desc.width, 640);
    assert_eq!(g.sc_desc.height, 480);
    assert_eq!(g.swap_chain.width, 640);
    assert_eq!(g.swap_chain.height, 480);
    assert_eq!(g.size, PhysicalSize { width: 640, height: 480 });
    assert_eq!(g.commands.len(), 0);
}

#[test]
fn new_context_uploads_the_uniform_block_once_and_binds_it() {
    let g = GraphicsState::new(PhysicalSize { width: 100, height: 100 });
    assert_eq!(g.buffers.len(), 1);
    assert_eq!(g.uniform_buffer, 0);
    assert!(g.buffers[0].usage == BufferUsage::Uniform);
    assert_eq!(g.buffers[0].contents, Uniforms::new().to_bytes());
    assert_eq!(g.bind_groups.len(), 1);
    assert_eq!(g.uniform_bind_group, 0);
    assert_eq!(g.bind_groups[0].entries.len(), 1);
    assert_eq!(g.bind_groups[0].entries[0].binding, 0);
    assert_eq!(g.bind_groups[0].entries[0].buffer, g.uniform_buffer);
}

#[test]
fn uniform_bind_group_layout_is_one_fragment_uniform_slot() {
    let layout = Uniforms::new().bind_group_layout();
    assert_eq!(layout.entries.len(), 1);
    assert_eq!(layout.entries[0].binding, 0);
    assert!(layout.entries[0].visibility == ShaderStage::Fragment);
    assert!(layout.entries[0].ty == (BindingType::UniformBuffer { dynamic: false }));
}

#[test]
fn uniforms_buffer_records_the_current_block_bytes() {
    let mut g = GraphicsState::new(PhysicalSize { width: 100, height: 100 });
    let mut u = Uniforms::new();
    u.color = [0x11, 0x22, 0x33];
    let id = u.buffer(&mut g);
    assert_eq!(id, 1);
    assert!(g.buffers[1].usage == BufferUsage::Uniform);
    assert_eq!(g.buffers[1].contents, u.to_bytes());
}

#[test]
fn resize_yields_a_swapchain_of_exactly_the_new_size() {
    let mut g = GraphicsState::new(PhysicalSize { width: 640, height: 480 });
    g.resize(PhysicalSize { width: 800, height: 600 });
    assert_eq!(g.sc_desc.width, 800);
    assert_eq!(g.sc_desc.height, 600);
    assert_eq!(g.swap_chain.width, 800);
    assert_eq!(g.swap_chain.height, 600);
    assert!(g.swap_chain.format == TextureFormat::Bgra8UnormSrgb);
    assert_eq!(g.size, PhysicalSize { width: 800, height: 600 });
    g.resize(PhysicalSize { width: 1, height: 1 });
    assert_eq!(g.swap_chain.width, 1);
    assert_eq!(g.swap_chain.height, 1);
}

#[test]
fn clear_color_is_near_black_with_opaque_alpha() {
    let c = clear_color();
    assert_eq!(f64::from_bits(c.r), 0.01);
    assert_eq!(f64::from_bits(c.g), 0.01);
    assert_eq!(f64::from_bits(c.b), 0.01);
    assert_eq!(f64::from_bits(c.a), 1.0);
    assert_eq!(c.r, CLEAR_CHANNEL_BITS);
    assert_eq!(c.a, CLEAR_ALPHA_BITS);
}

#[test]
fn read_spirv_accepts_a_magic_led_word_stream() {
    let mut data = SPIRV_MAGIC.to_le_bytes().to_vec();
    data.extend_from_slice(&[0x78, 0x56, 0x34, 0x12]);
    let words = read_spirv(&data).unwrap();
    assert_eq!(words, vec![SPIRV_MAGIC, 0x12345678]);
}

#[test]
fn read_spirv_rejects_unaligned_input() {
    let data = vec![0x03, 0x02, 0x23];
    assert!(read_spirv(&data) == Err(SpirvError::NotWordAligned));
    let mut longer = SPIRV_MAGIC.to_le_bytes().to_vec();
    longer.push(0x00);
    assert!(read_spirv(&longer) == Err(SpirvError::NotWordAligned));
}

#[test]
fn read_spirv_rejects_a_missing_magic_number() {
    assert!(read_spirv(&vec![]) == Err(SpirvError::MissingMagic));
    let data = vec![0x01, 0x02, 0x03, 0x04];
    assert!(read_spirv(&data) == Err(SpirvError::MissingMagic));
}
