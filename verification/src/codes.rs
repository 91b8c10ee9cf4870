//! ANSI escape code constants.
//!
//! Fixed literal escape strings consumed by callers as they are; none of them
//! is generated by the sequence renderer.

pub mod erase;

use vstd::prelude::*;

verus! {

/// The bell character.
pub const BELL: &'static str = "\x07";

/// The reset sequence: clears every attribute and color a style set.
pub const RESET: &'static str = "\x1b[0m";

/// Moves the cursor to the top left corner.
pub const HOME: &'static str = "\x1b[H";

} // verus!
