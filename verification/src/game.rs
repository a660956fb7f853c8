//! The state of the game.

use crate::event::KeyEvent;
use std::time::Duration;
use vstd::prelude::*;

verus! {

/// Represents all game-related state.
#[derive(Debug, PartialEq, Eq, Structural)]
pub struct Game;

impl Game {
    /// A fresh game.
    pub fn new() -> (game: Self)
        ensures
            game == Game,
    {
        Self
    }

    /// Advances the game by `delta_time`. The game holds no state yet, so
    /// every `delta_time` leaves it as it was.
    pub fn update(&mut self, delta_time: Duration)
        ensures
            *final(self) == *old(self),
    {
    }

    /// Lets the game react to a key. The game holds no state yet, so every
    /// `key_event` leaves it as it was.
    pub fn handle_keyboard_input(&mut self, key_event: KeyEvent)
        ensures
            *final(self) == *old(self),
    {
    }
}

} // verus!
