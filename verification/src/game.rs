use vstd::prelude::*;
use crate::render::Render;
use crate::render::state::GraphicsState;
use crate::render::state::PhysicalSize;
use crate::render::state::graphics_after_resize;
use crate::render::uniforms::Uniforms;

verus! {

/// One window event, reduced to the facts the driver's rules read;
/// the unverified shell translates each platform event into one of
/// these.
#[derive(Clone, Copy, Debug, PartialEq, Eq, Structural)]
pub enum WindowEvent {
    CloseRequested,
    /// A key event: whether it is a press (not a release) and whether
    /// the key is Escape.
    KeyboardInput { pressed: bool, is_escape: bool },
    Resized { size: PhysicalSize },
    ScaleFactorChanged { size: PhysicalSize },
    /// Any window event the driver has no rule for.
    Other,
}

/// One event of the platform loop.
#[derive(Clone, Copy, Debug, PartialEq, Eq, Structural)]
pub enum Event {
    /// A window event, and whether it belongs to the driver's own
    /// window; events of other windows get no handling at all.
    Window { event: WindowEvent, ours: bool },
    /// The platform asks for a frame.
    RedrawRequested,
    /// The queued events drained for this cycle.
    MainEventsCleared,
    /// Anything else.
    Other,
}

/// What the driver's built-in rule does with one window event.
#[derive(Clone, Copy, Debug, PartialEq, Eq, Structural)]
pub enum Action {
    /// Leave the event loop.
    Exit,
    /// Resize the swapchain to the new physical size.
    Resize { size: PhysicalSize },
    /// Nothing.
    Ignore,
}

/// The game object the driver runs: it advances its own state, writes
/// the uniform block, sees every window event first, and renders.
pub trait Game: Render {
    /// Advance the game's own state, once per frame.
    fn update(&mut self);

    /// Rewrite the shared uniform block before the frame is drawn.
    fn update_uniforms(&self, uniforms: &mut Uniforms);

    /// True means the game consumed the event; the driver then applies
    /// no built-in rule to it.
    fn handle_events(&mut self, event: &WindowEvent) -> bool;
}

/// The driver's built-in rule: a close request or an Escape press ends
/// the loop, a size change resizes the swapchain, everything else is
/// ignored.
pub open spec fn spec_default_action(event: WindowEvent) -> Action {
    match event {
        WindowEvent::CloseRequested => Action::Exit,
        WindowEvent::KeyboardInput { pressed, is_escape } => if pressed && is_escape {
            Action::Exit
        } else {
            Action::Ignore
        },
        WindowEvent::Resized { size } => Action::Resize { size },
        WindowEvent::ScaleFactorChanged { size } => Action::Resize { size },
        WindowEvent::Other => Action::Ignore,
    }
}

/// The driver's handling of one window event: the built-in rule where
/// the game did not consume the event, and nothing where it did.
pub open spec fn spec_event_action(consumed: bool, event: WindowEvent) -> Action {
    if consumed {
        Action::Ignore
    } else {
        spec_default_action(event)
    }
}

/// Law: an event the game consumes gets no built-in handling at all,
/// whatever the event was — a game that claims the Escape key keeps
/// the process alive.
pub proof fn lemma_consumed_event_suppresses_default(event: WindowEvent)
    ensures
        spec_event_action(true, event) == Action::Ignore,
{
}

/// The driver's built-in rule as executable code.
pub fn default_action(event: &WindowEvent) -> (a: Action)
    ensures
        a == spec_default_action(*event),
{
    match *event {
        WindowEvent::CloseRequested => Action::Exit,
        WindowEvent::KeyboardInput { pressed, is_escape } => if pressed && is_escape {
            Action::Exit
        } else {
            Action::Ignore
        },
        WindowEvent::Resized { size } => Action::Resize { size },
        WindowEvent::ScaleFactorChanged { size } => Action::Resize { size },
        WindowEvent::Other => Action::Ignore,
    }
}

/// What one window event did: whether the game consumed it and which
/// built-in action the driver took.
#[derive(Clone, Copy, Debug, PartialEq, Eq, Structural)]
pub struct EventOutcome {
    pub consumed: bool,
    pub action: Action,
}

/// Offers `event` to the game first, then applies the driver's
/// built-in rule to whatever the game left unconsumed; a resize goes
/// straight to the graphics context, and a consumed event changes
/// nothing at all.
pub fn handle_window_event<G: Game>(
    game: &mut G,
    graphics: &mut GraphicsState,
    event: &WindowEvent,
) -> (outcome: EventOutcome)
    ensures
        outcome.action == spec_event_action(outcome.consumed, *event),
        outcome.consumed ==> final(graphics)@ == old(graphics)@,
        final(graphics)@ == (match spec_event_action(outcome.consumed, *event) {
            Action::Resize { size } => graphics_after_resize(old(graphics)@, size),
            _ => old(graphics)@,
        }),
{
    let consumed = game.handle_events(event);
    if consumed {
        return EventOutcome { consumed: true, action: Action::Ignore };
    }
    let action = default_action(event);
    match action {
        Action::Resize { size } => graphics.resize(size),
        _ => {},
    }
    EventOutcome { consumed: false, action }
}

/// One frame: advance the game, let it rewrite the uniform block, then
/// let it record its draw calls against the context. What the game
/// does is its own; nothing is promised of the state it leaves.
pub fn run_frame<G: Game>(game: &mut G, graphics: &mut GraphicsState) {
    game.update();
    game.update_uniforms(&mut graphics.uniforms);
    game.render(graphics);
}

/// The per-event outcome of the driver loop.
#[derive(Clone, Copy, Debug, PartialEq, Eq, Structural)]
pub struct StepResult {
    /// The loop must end.
    pub exit: bool,
    /// The shell must ask the window for the next redraw.
    pub request_redraw: bool,
}

/// One turn of the event loop: window events of the driver's own
/// window go through the game and then the built-in rule, a redraw
/// request runs one frame, and a drained queue asks for the next
/// redraw. The loop ends only on a close request or an unconsumed
/// Escape press.
///
/// For an own-window event, one of exactly two things happens: the
/// game left the event unconsumed and the built-in rule ran in full —
/// the exit signal is set if and only if the rule says exit, and the
/// swapchain is resized exactly when the rule says resize — or the
/// game consumed the event and nothing of the driver's happened at
/// all: no exit, no change to the graphics context.
pub fn step<G: Game>(game: &mut G, graphics: &mut GraphicsState, event: &Event) -> (s: StepResult)
    ensures
        s.request_redraw == (*event is MainEventsCleared),
        s.exit ==> (*event matches Event::Window { event: we, ours: true }
            && spec_default_action(we) == Action::Exit),
        (match *event {
            Event::Window { event: we, ours } => ours ==> {
                ||| (s.exit == (spec_default_action(we) == Action::Exit)
                    && final(graphics)@ == (match spec_default_action(we) {
                        Action::Resize { size } => graphics_after_resize(old(graphics)@, size),
                        _ => old(graphics)@,
                    }))
                ||| (!s.exit && final(graphics)@ == old(graphics)@)
            },
            _ => true,
        }),
        (match *event {
            Event::Window { event: we, ours } => !ours ==> final(graphics)@ == old(graphics)@,
            Event::RedrawRequested => true,
            _ => final(graphics)@ == old(graphics)@,
        }),
{
    match event {
        Event::Window { event: window_event, ours } => {
            if *ours {
                let outcome = handle_window_event(game, graphics, window_event);
                let exit = match outcome.action {
                    Action::Exit => true,
                    _ => false,
                };
                StepResult { exit, request_redraw: false }
            } else {
                StepResult { exit: false, request_redraw: false }
            }
        },
        Event::RedrawRequested => {
            run_frame(game, graphics);
            StepResult { exit: false, request_redraw: false }
        },
        Event::MainEventsCleared => StepResult { exit: false, request_redraw: true },
        Event::Other => StepResult { exit: false, request_redraw: false },
    }
}

} // verus!
