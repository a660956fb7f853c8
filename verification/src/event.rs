//! What the windowing system reports to the shell, and what the shell asks
//! of the event loop in return. Everything here is a plain value: the code
//! that owns the event loop turns what it receives into these types.

use vstd::prelude::*;

verus! {

/// Whether a key went down or came up.
#[derive(Clone, Copy, Debug, PartialEq, Eq, Structural)]
pub enum ElementState {
    Pressed,
    Released,
}

/// The position of a key on the keyboard, whatever the active layout. Only
/// the keys that the shell tells apart are named.
#[derive(Clone, Copy, Debug, PartialEq, Eq, Structural)]
pub enum KeyCode {
    Escape,
    /// Any other key with a known position.
    Other,
}

/// The physical key of a keyboard event.
#[derive(Clone, Copy, Debug, PartialEq, Eq, Structural)]
pub enum PhysicalKey {
    /// A key with a known position.
    Code(KeyCode),
    /// A key that could not be given a position.
    Unidentified,
}

/// A keyboard input that targets the window.
#[derive(Clone, Copy, Debug, PartialEq, Eq, Structural)]
pub struct KeyEvent {
    pub physical_key: PhysicalKey,
    pub state: ElementState,
}

impl KeyEvent {
    /// The escape key went down.
    pub open spec fn is_escape_press(self) -> bool {
        self.state is Pressed && self.physical_key == PhysicalKey::Code(KeyCode::Escape)
    }
}

/// An event of the window.
#[derive(Clone, Copy, Debug, PartialEq, Eq, Structural)]
pub enum WindowEvent {
    /// The user asked for the window to be closed.
    CloseRequested,
    /// A frame should be produced.
    RedrawRequested,
    /// A key went down or came up.
    KeyboardInput { event: KeyEvent },
    /// Any event that the shell does not answer.
    Other,
}

/// What the owner of the event loop has to do after the shell has seen an
/// event.
#[derive(Clone, Copy, Debug, PartialEq, Eq)]
pub enum Action {
    /// Nothing.
    Idle,
    /// Create a window with this title and a renderer for it, and hand
    /// both to the shell.
    CreateWindow { title: &'static str },
    /// Draw a frame of the game with the shell's renderer.
    Render,
    /// Stop the event loop.
    Exit,
}

/// The action that answers a keyboard input: the escape key going down ends
/// the loop, and nothing else does anything. It depends on the key alone.
pub open spec fn key_action(key_event: KeyEvent) -> Action {
    if key_event.is_escape_press() {
        Action::Exit
    } else {
        Action::Idle
    }
}

/// The action that answers a window event. It depends on the event alone,
/// never on the state of the shell or of the game.
pub open spec fn event_action(event: WindowEvent) -> Action {
    match event {
        WindowEvent::CloseRequested => Action::Exit,
        WindowEvent::RedrawRequested => Action::Render,
        WindowEvent::KeyboardInput { event } => key_action(event),
        WindowEvent::Other => Action::Idle,
    }
}

/// The loop is left on a close request and on the escape key going down,
/// and on nothing else.
pub proof fn lemma_exit_iff_close_or_escape(event: WindowEvent)
    ensures
        event_action(event) == Action::Exit <==> event is CloseRequested || (event matches
        WindowEvent::KeyboardInput { event: key_event } && key_event.is_escape_press()),
{
}

/// A frame is drawn on a redraw request and on nothing else.
pub proof fn lemma_render_iff_redraw(event: WindowEvent)
    ensures
        event_action(event) == Action::Render <==> event is RedrawRequested,
{
}

} // verus!
