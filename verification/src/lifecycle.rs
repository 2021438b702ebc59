//! The host's side of the frame lifecycle: no state exists before the window
//! does, and every window event is answered by what the host has to do next.

use crate::state::{Phase, State};
use vstd::prelude::*;
use winit::event::ElementState;
use winit::keyboard::KeyCode;

verus! {

/// A window event, as far as the frame lifecycle reads it.
pub enum WindowInput {
    /// The user asked to close the window.
    CloseRequested,
    /// The window's client area has a new size.
    Resized { width: u32, height: u32 },
    /// The window wants to be drawn.
    RedrawRequested,
    /// A key with a known physical position went down or came up.
    KeyboardInput { key: KeyCode, state: ElementState },
    /// Any other event.
    Other,
}

/// What the host does in answer to a window event.
#[derive(Clone, Copy, PartialEq, Eq, Debug, Structural)]
pub enum Reaction {
    /// Nothing.
    Ignore,
    /// Leave the event loop.
    Exit,
    /// Configure the surface anew with the stored configuration.
    Configure,
    /// Run one frame: update for a viewport of this size, then draw.
    Frame { width: usize, height: usize },
}

/// The application: nothing before the window exists, the frame state after.
pub struct App {
    pub state: Option<State>,
}

/// Whether the surface of the application, where it has one yet, has no zero
/// side.
pub open spec fn has_proper_size(app: App) -> bool {
    app.state matches Some(state) ==> state.display.config.width > 0
        && state.display.config.height > 0
}

/// Whether the application has a frame state that stands in `phase`.
pub open spec fn stands_in(app: App, phase: Phase) -> bool {
    app.state matches Some(state) && state.phase == phase
}

/// No window event gives a zero side to a surface that has none.
pub proof fn lemma_size_stays_proper(app: App, input: WindowInput)
    requires
        has_proper_size(app),
    ensures
        has_proper_size(app.after(input).0),
{
}

/// No window event loses the surface or starts drawing: a state that is
/// lost, or drawing, after a window event was so before it.
pub proof fn lemma_events_keep_out_of_render(app: App, input: WindowInput)
    ensures
        stands_in(app.after(input).0, Phase::Lost) ==> stands_in(app, Phase::Lost),
        stands_in(app.after(input).0, Phase::Rendering) ==> stands_in(app, Phase::Rendering),
{
}

impl App {
    /// The application and its answer after `input` arrived.
    pub open spec fn after(self, input: WindowInput) -> (App, Reaction) {
        match self.state {
            None => (self, Reaction::Ignore),
            Some(state) => match input {
                WindowInput::CloseRequested => (App { state: None }, Reaction::Exit),
                WindowInput::Resized { width, height } => (
                    App { state: Some(state.resized(width, height)) },
                    if width > 0 && height > 0 {
                        Reaction::Configure
                    } else {
                        Reaction::Ignore
                    },
                ),
                WindowInput::RedrawRequested => if state.phase == Phase::Ready {
                    (
                        App { state: Some(state.in_phase(Phase::Updating)) },
                        Reaction::Frame {
                            width: state.display.config.width as usize,
                            height: state.display.config.height as usize,
                        },
                    )
                } else {
                    (self, Reaction::Ignore)
                },
                WindowInput::KeyboardInput { key, state: key_state } => (
                    App {
                        state: Some(
                            State {
                                player_controller: state.player_controller.with_key(
                                    key,
                                    key_state is Pressed,
                                ),
                                ..state
                            },
                        ),
                    },
                    Reaction::Ignore,
                ),
                WindowInput::Other => (self, Reaction::Ignore),
            },
        }
    }

    /// The application before its window exists.
    pub fn new() -> (app: App)
        ensures
            app.state is None,
    {
        App { state: None }
    }

    /// Takes the frame state that was built for the new window.
    pub fn resumed(&mut self, state: State)
        ensures
            final(self).state == Some(state),
    {
        self.state = Some(state);
    }

    /// Whether a redraw is to be requested from the window: whenever the
    /// frame state exists.
    pub fn wants_redraw(&self) -> (wanted: bool)
        ensures
            wanted == self.state is Some,
    {
        self.state.is_some()
    }

    /// Answers a window event. Before the window exists every event is
    /// ignored.
    pub fn window_event(&mut self, input: WindowInput) -> (reaction: Reaction)
        ensures
            (*final(self), reaction) == old(self).after(input),
    {
        match &mut self.state {
            None => Reaction::Ignore,
            Some(state) => match input {
                WindowInput::CloseRequested => {
                    self.state = None;
                    Reaction::Exit
                },
                WindowInput::Resized { width, height } => {
                    if state.resize(width, height) {
                        Reaction::Configure
                    } else {
                        Reaction::Ignore
                    }
                },
                WindowInput::RedrawRequested => match state.begin_update() {
                    Some((width, height)) => Reaction::Frame { width, height },
                    None => Reaction::Ignore,
                },
                WindowInput::KeyboardInput { key, state: key_state } => {
                    state.player_controller.process_keyboard(key, key_state);
                    Reaction::Ignore
                },
                WindowInput::Other => Reaction::Ignore,
            },
        }
    }
}

} // verus!
