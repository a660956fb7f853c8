//! The application shell: it owns the window, the renderer and the game,
//! keeps the time of the last frame, and decides what each event leads to.
//!
//! The shell is generic in the window `W` and the renderer `R`. It never
//! creates or uses either; it stores them, and it says when they have to be
//! created, when a frame has to be drawn and when the loop has to end.

use crate::consts::WINDOW_TITLE;
use crate::event::{event_action, key_action, Action, ElementState, KeyCode, KeyEvent, PhysicalKey, WindowEvent};
use crate::game::Game;
use std::time::Instant;
use vstd::prelude::*;

verus! {

/// What a shell holds, as contracts speak of it.
pub struct AppView<W, R> {
    pub window: Option<W>,
    pub renderer: Option<R>,
    pub game: Game,
    pub last_time: Instant,
}

impl<W, R> AppView<W, R> {
    /// The renderer is there if and only if the window is.
    pub open spec fn wf(self) -> bool {
        self.window is Some <==> self.renderer is Some
    }

    /// The shell before it has been resumed: no window, no renderer, a fresh
    /// game, and `now` as the time of the last frame.
    pub open spec fn starting_at(now: Instant) -> Self {
        AppView { window: None, renderer: None, game: Game, last_time: now }
    }

    /// What a resume asks for: a window where there is none yet.
    pub open spec fn resume_action(self) -> Action {
        if self.window is None {
            Action::CreateWindow { title: WINDOW_TITLE }
        } else {
            Action::Idle
        }
    }

    /// The shell once `window` and `renderer` have been stored.
    pub open spec fn attach(self, window: W, renderer: R) -> Self {
        AppView { window: Some(window), renderer: Some(renderer), ..self }
    }

    /// The shell after a whole resume, in which `window` and `renderer` are
    /// what was created where the shell asked for a window.
    pub open spec fn resume(self, window: W, renderer: R) -> Self {
        if self.resume_action() is CreateWindow {
            self.attach(window, renderer)
        } else {
            self
        }
    }

    /// The shell after the frame of time `now`.
    pub open spec fn advance(self, now: Instant) -> Self {
        AppView { last_time: now, ..self }
    }

    /// The shell after a window event that arrived at time `now`. Only a
    /// redraw request changes anything.
    pub open spec fn window_event(self, event: WindowEvent, now: Instant) -> Self {
        if event is RedrawRequested {
            self.advance(now)
        } else {
            self
        }
    }
}

/// The main application struct.
pub struct App<W, R> {
    /// The window and the renderer that draws into it. They are created
    /// together and kept together.
    surface: Option<(W, R)>,
    game: Game,
    last_time: Instant,
}

impl<W, R> View for App<W, R> {
    type V = AppView<W, R>;

    closed spec fn view(&self) -> AppView<W, R> {
        AppView {
            window: match self.surface {
                Some((window, _)) => Some(window),
                None => None,
            },
            renderer: match self.surface {
                Some((_, renderer)) => Some(renderer),
                None => None,
            },
            game: self.game,
            last_time: self.last_time,
        }
    }
}

impl<W, R> Default for App<W, R> {
    /// A shell without window or renderer, whose last frame is at a reading
    /// of the clock.
    fn default() -> (app: Self)
        ensures
            app@ == AppView::<W, R>::starting_at(app@.last_time),
    {
        App::starting_at(Instant::now())
    }
}

impl<W, R> App<W, R> {
    /// A shell without window or renderer, whose last frame is at `now`.
    pub fn starting_at(now: Instant) -> (app: Self)
        ensures
            app@ == AppView::<W, R>::starting_at(now),
    {
        App { surface: None, game: Game::new(), last_time: now }
    }

    /// The event loop has been resumed: a window may now be created. The
    /// shell asks for one unless it has one already. Whoever creates it
    /// hands it over with [`App::attach`].
    pub fn resumed(&self) -> (action: Action)
        ensures
            action == self@.resume_action(),
    {
        if self.surface.is_none() {
            Action::CreateWindow { title: WINDOW_TITLE }
        } else {
            Action::Idle
        }
    }

    /// Stores a window and the renderer that was set up for it. An earlier
    /// pair, if there was one, is dropped.
    pub fn attach(&mut self, window: W, renderer: R)
        ensures
            final(self)@ == old(self)@.attach(window, renderer),
    {
        self.surface = Some((window, renderer));
    }

    /// Answers an event of the window. A close request ends the loop. A
    /// redraw request advances the game to the present and asks for a frame.
    /// A keyboard input goes to [`App::handle_keyboard_input`]. The time of
    /// the last frame changes on a redraw request only, to a reading of the
    /// clock; [`App::advance`] says what follows from a given reading.
    pub fn window_event(&mut self, event: WindowEvent) -> (action: Action)
        ensures
            action == event_action(event),
            final(self)@ == old(self)@.window_event(event, final(self)@.last_time),
    {
        match event {
            WindowEvent::CloseRequested => Action::Exit,
            WindowEvent::RedrawRequested => {
                self.update();
                Action::Render
            },
            WindowEvent::KeyboardInput { event } => self.handle_keyboard_input(event),
            WindowEvent::Other => Action::Idle,
        }
    }

    /// Reads the clock and advances the game to that time. Whatever the
    /// clock says, nothing but the time of the last frame changes.
    pub fn update(&mut self)
        ensures
            final(self)@ == old(self)@.advance(final(self)@.last_time),
    {
        let now = Instant::now();
        self.advance(now);
    }

    /// Advances the game by the time that has passed between the last frame
    /// and `now`, and makes `now` the time of the last frame.
    pub fn advance(&mut self, now: Instant)
        ensures
            final(self)@ == old(self)@.advance(now),
    {
        let delta_time = now.saturating_duration_since(self.last_time);
        self.last_time = now;
        self.game.update(delta_time);
    }

    /// Answers a keyboard input. The escape key going down ends the loop;
    /// this is settled by the key alone, before the game sees it. Every key
    /// with a known position that goes down is then handed to the game.
    pub fn handle_keyboard_input(&mut self, key_event: KeyEvent) -> (action: Action)
        ensures
            action == key_action(key_event),
            final(self)@ == old(self)@,
    {
        match (key_event.physical_key, key_event.state) {
            (PhysicalKey::Code(key_code), ElementState::Pressed) => {
                let action = match key_code {
                    KeyCode::Escape => Action::Exit,
                    KeyCode::Other => Action::Idle,
                };
                self.game.handle_keyboard_input(key_event);
                action
            },
            _ => Action::Idle,
        }
    }

    /// The renderer and the game it has to draw, where there is a renderer.
    /// What the caller does to the renderer is what the shell then holds;
    /// the rest of the shell stays as it was.
    pub fn render_parts(&mut self) -> (parts: Option<(&mut R, &Game)>)
        ensures
            parts is Some <==> old(self)@.renderer is Some,
            parts is None ==> final(self)@ == old(self)@,
            parts matches Some((renderer, game)) ==> Some(*renderer) == old(self)@.renderer
                && *game == old(self)@.game && final(self)@ == (AppView {
                renderer: Some(*final(renderer)),
                ..old(self)@
            }),
    {
        match &mut self.surface {
            Some((_, renderer)) => Some((renderer, &self.game)),
            None => None,
        }
    }

    /// Whether the shell has a window.
    pub fn has_window(&self) -> (present: bool)
        ensures
            present == self@.window is Some,
    {
        self.surface.is_some()
    }

    /// Whether the shell has a renderer.
    pub fn has_renderer(&self) -> (present: bool)
        ensures
            present == self@.renderer is Some,
    {
        self.surface.is_some()
    }

    /// The game.
    pub fn game(&self) -> (game: &Game)
        ensures
            *game == self@.game,
    {
        &self.game
    }

    /// The time of the last frame.
    pub fn last_time(&self) -> (time: Instant)
        ensures
            time == self@.last_time,
    {
        self.last_time
    }

    /// Whatever has happened to a shell, it has a renderer if and only if it
    /// has a window.
    pub proof fn lemma_window_iff_renderer(self)
        ensures
            self@.wf(),
    {
    }
}

/// After a resume the shell has both a window and a renderer: either it had
/// them already, or it asked for them and they were stored.
pub proof fn lemma_resume_gives_window_and_renderer<W, R>(
    app: AppView<W, R>,
    window: W,
    renderer: R,
)
    requires
        app.wf(),
    ensures
        app.resume(window, renderer).window is Some,
        app.resume(window, renderer).renderer is Some,
        app.resume(window, renderer).wf(),
        app.window is Some ==> app.resume(window, renderer) == app,
{
}

/// No window event adds or removes the window or the renderer, or touches
/// the game.
pub proof fn lemma_window_event_keeps_surface<W, R>(
    app: AppView<W, R>,
    event: WindowEvent,
    now: Instant,
)
    ensures
        app.window_event(event, now).window == app.window,
        app.window_event(event, now).renderer == app.renderer,
        app.window_event(event, now).game == app.game,
        app.wf() ==> app.window_event(event, now).wf(),
{
}

} // verus!
