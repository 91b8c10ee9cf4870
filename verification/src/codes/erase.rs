//! Escape code constants for erasing parts of the screen or the current line.

use vstd::prelude::*;

verus! {

/// Erases the full screen.
pub const SCREEN: &'static str = "\x1b[2J";

/// Erases from the cursor to the end of the screen.
pub const CURSOR_TO_END_SCREEN: &'static str = "\x1b[0J";

/// Erases from the cursor to the start of the screen.
pub const CURSOR_TO_START_SCREEN: &'static str = "\x1b[1J";

/// Erases the full current line.
pub const LINE: &'static str = "\x1b[2K";

/// Erases from the cursor to the end of the current line.
pub const CURSOR_TO_END_LN: &'static str = "\x1b[0K";

/// Erases from the cursor to the start of the current line.
pub const CURSOR_TO_START_LN: &'static str = "\x1b[0K";

} // verus!
