//! ANSI colour codes. They are the standard colours 0 to 15, so they follow the
//! terminal's theme.

use vstd::prelude::*;

verus! {

/// Ends a colour.
pub const RESET: &'static str = "\x1b[0m";

/// Colour 5: the name of a bookmark or branch.
pub const PURPLE: &'static str = "\x1b[35m";

/// Colour 2: an identifier shown in one tone.
pub const GREEN: &'static str = "\x1b[32m";

/// Colour 1: the status summary.
pub const RED: &'static str = "\x1b[31m";

/// Colour 4: the symbol.
pub const BLUE: &'static str = "\x1b[34m";

/// Bright magenta: the unique prefix of an identifier.
pub const BRIGHT_MAGENTA: &'static str = "\x1b[95m";

/// Bright black: the rest of an identifier.
pub const BRIGHT_BLACK: &'static str = "\x1b[90m";

} // verus!
