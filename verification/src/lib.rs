//! The core of a voxel game: the game state, and the rules by which the
//! application shell answers the events of its window.
//!
//! The shell owns no event loop. Whoever does hands it each event as a
//! plain value and carries out the [`event::Action`] that comes back.

pub mod clock;
pub mod consts;
pub mod event;
pub mod game;
pub mod shell;
