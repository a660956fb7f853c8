//! Constants of the application.

use vstd::prelude::*;

verus! {

/// The title of the game's window.
pub const WINDOW_TITLE: &'static str = "voxel-rs";

} // verus!
