use grafica::game::{
    Action, Event, EventOutcome, Game, WindowEvent, default_action, handle_window_event, run_frame,
    step,
};
use grafica::render::Render;
use grafica::render::mesh::Mesh;
use grafica::render::state::{BufferUsage, GraphicsState, PhysicalSize, RenderCommand};
use grafica::render::uniforms::Uniforms;
use grafica::render::vertex::Vertex;

fn triangle_mesh() -> Mesh {
    Mesh::new(
        vec![
            Vertex::new(
                [0.0f32.to_bits(), 0.05f32.to_bits(), 0.0f32.to_bits()],
                [1.0f32.to_bits(), 0.0f32.to_bits(), 0.0f32.to_bits()],
            ),
            Vertex::new(
                [(-0.05f32).to_bits(), (-0.05f32).to_bits(), 0.0f32.to_bits()],
                [0.0f32.to_bits(), 1.0f32.to_bits(), 0.0f32.to_bits()],
            ),
            Vertex::new(
                [0.05f32.to_bits(), (-0.05f32).to_bits(), 0.0f32.to_bits()],
                [0.0f32.to_bits(), 0.0f32.to_bits(), 1.0f32.to_bits()],
            ),
        ],
        vec![0, 1, 2],
    )
}

struct TriangleGame {
    mesh: Mesh,
    consume_all: bool,
}

impl Render for TriangleGame {
    fn render(&mut self, graphics: &mut GraphicsState) {
        self.mesh.render(graphics);
    }
}

impl Game for TriangleGame {
    fn update(&mut self) {}

    fn update_uniforms(&self, _uniforms: &mut Uniforms) {}

    fn handle_events(&mut self, _event: &WindowEvent) -> bool {
        self.consume_all
    }
}

#[test]
fn first_render_uploads_both_buffers_and_draws_the_full_range() {
    let mut g = GraphicsState::new(PhysicalSize { width: 640, height: 480 });
    let mut mesh = triangle_mesh();
    mesh.render(&mut g);
    assert_eq!(mesh.vertex_buffer, Some(1));
    assert_eq!(mesh.index_buffer, Some(2));
    assert_eq!(g.buffers.len(), 3);
    assert!(g.buffers[1].usage == BufferUsage::Vertex);
    assert_eq!(g.buffers[1].contents.len(), 3 * 24);
    assert!(g.buffers[2].usage == BufferUsage::Index);
    assert_eq!(g.buffers[2].contents.len(), 3 * 2);
    assert_eq!(g.buffers[2].contents, vec![0, 0, 1, 0, 2, 0]);
    assert_eq!(g.commands.len(), 9);
    assert!(matches!(g.commands[0], RenderCommand::AcquireFrame));
    assert!(matches!(g.commands[1], RenderCommand::BeginRenderPass { .. }));
    assert!(matches!(g.commands[2], RenderCommand::SetPipeline));
    assert!(g.commands[3] == (RenderCommand::SetBindGroup { slot: 0, group: g.uniform_bind_group }));
    assert!(g.commands[4] == (RenderCommand::SetVertexBuffer { slot: 0, buffer: 1 }));
    assert!(g.commands[5] == (RenderCommand::SetIndexBuffer { buffer: 2 }));
    assert!(
        g.commands[6]
            == (RenderCommand::DrawIndexed {
                index_start: 0,
                index_end: 3,
                base_vertex: 0,
                instances: 1,
            })
    );
    assert!(matches!(g.commands[7], RenderCommand::EndRenderPass));
    assert!(matches!(g.commands[8], RenderCommand::Submit));
    let first_record = &g.buffers[1].contents[0..12];
    assert_eq!(first_record[0..4].to_vec(), 0.0f32.to_bits().to_le_bytes().to_vec());
    assert_eq!(first_record[4..8].to_vec(), 0.05f32.to_bits().to_le_bytes().to_vec());
}

#[test]
fn second_render_reuses_the_created_buffer_pair() {
    let mut g = GraphicsState::new(PhysicalSize { width: 640, height: 480 });
    let mut mesh = triangle_mesh();
    mesh.render(&mut g);
    let vb = mesh.vertex_buffer;
    let ib = mesh.index_buffer;
    mesh.render(&mut g);
    assert_eq!(mesh.vertex_buffer, vb);
    assert_eq!(mesh.index_buffer, ib);
    assert_eq!(g.buffers.len(), 3);
    assert_eq!(g.commands.len(), 18);
    assert!(g.commands[13] == (RenderCommand::SetVertexBuffer { slot: 0, buffer: 1 }));
}

#[test]
fn default_rule_exits_on_close_and_escape_only() {
    assert!(default_action(&WindowEvent::CloseRequested) == Action::Exit);
    assert!(
        default_action(&WindowEvent::KeyboardInput { pressed: true, is_escape: true })
            == Action::Exit
    );
    assert!(
        default_action(&WindowEvent::KeyboardInput { pressed: false, is_escape: true })
            == Action::Ignore
    );
    assert!(
        default_action(&WindowEvent::KeyboardInput { pressed: true, is_escape: false })
            == Action::Ignore
    );
    assert!(default_action(&WindowEvent::Other) == Action::Ignore);
    let size = PhysicalSize { width: 320, height: 200 };
    assert!(default_action(&WindowEvent::Resized { size }) == (Action::Resize { size }));
    assert!(
        default_action(&WindowEvent::ScaleFactorChanged { size }) == (Action::Resize { size })
    );
}

#[test]
fn a_game_that_claims_escape_keeps_the_loop_alive() {
    let mut g = GraphicsState::new(PhysicalSize { width: 640, height: 480 });
    let mut game = TriangleGame { mesh: triangle_mesh(), consume_all: true };
    let escape = WindowEvent::KeyboardInput { pressed: true, is_escape: true };
    let outcome = handle_window_event(&mut game, &mut g, &escape);
    assert!(outcome == (EventOutcome { consumed: true, action: Action::Ignore }));
    let s = step(&mut game, &mut g, &(Event::Window { event: escape, ours: true }));
    assert!(!s.exit);
    game.consume_all = false;
    let outcome = handle_window_event(&mut game, &mut g, &escape);
    assert!(outcome == (EventOutcome { consumed: false, action: Action::Exit }));
    let s = step(&mut game, &mut g, &(Event::Window { event: escape, ours: true }));
    assert!(s.exit);
}

#[test]
fn a_consumed_resize_leaves_the_swapchain_alone() {
    let mut g = GraphicsState::new(PhysicalSize { width: 640, height: 480 });
    let mut game = TriangleGame { mesh: triangle_mesh(), consume_all: true };
    let resize = WindowEvent::Resized { size: PhysicalSize { width: 800, height: 600 } };
    handle_window_event(&mut game, &mut g, &resize);
    assert_eq!(g.swap_chain.width, 640);
    assert_eq!(g.swap_chain.height, 480);
}

#[test]
fn events_of_other_windows_are_ignored() {
    let mut g = GraphicsState::new(PhysicalSize { width: 640, height: 480 });
    let mut game = TriangleGame { mesh: triangle_mesh(), consume_all: false };
    let s = step(
        &mut game,
        &mut g,
        &(Event::Window { event: WindowEvent::CloseRequested, ours: false }),
    );
    assert!(!s.exit);
    assert!(!s.request_redraw);
    assert_eq!(g.swap_chain.width, 640);
}

#[test]
fn a_drained_queue_requests_the_next_redraw() {
    let mut g = GraphicsState::new(PhysicalSize { width: 640, height: 480 });
    let mut game = TriangleGame { mesh: triangle_mesh(), consume_all: false };
    let s = step(&mut game, &mut g, &Event::MainEventsCleared);
    assert!(s.request_redraw);
    assert!(!s.exit);
    let s = step(&mut game, &mut g, &Event::Other);
    assert!(!s.request_redraw);
}

#[test]
fn resize_event_then_redraw_draws_into_the_new_swapchain() {
    let mut g = GraphicsState::new(PhysicalSize { width: 640, height: 480 });
    let mut game = TriangleGame { mesh: triangle_mesh(), consume_all: false };
    let resize = Event::Window {
        event: WindowEvent::Resized { size: PhysicalSize { width: 800, height: 600 } },
        ours: true,
    };
    let s = step(&mut game, &mut g, &resize);
    assert!(!s.exit);
    assert_eq!(g.swap_chain.width, 800);
    assert_eq!(g.swap_chain.height, 600);
    let s = step(&mut game, &mut g, &Event::RedrawRequested);
    assert!(!s.exit);
    assert_eq!(g.swap_chain.width, 800);
    assert_eq!(g.swap_chain.height, 600);
    assert_eq!(g.commands.len(), 9);
    assert!(matches!(g.commands[8], RenderCommand::Submit));
}

#[test]
fn run_frame_renders_through_the_game_object() {
    let mut g = GraphicsState::new(PhysicalSize { width: 640, height: 480 });
    let mut game = TriangleGame { mesh: triangle_mesh(), consume_all: false };
    run_frame(&mut game, &mut g);
    assert_eq!(game.mesh.vertex_buffer, Some(1));
    assert_eq!(g.commands.len(), 9);
}
