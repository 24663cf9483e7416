//! Detection of the terminal's graphics capabilities.
//!
//! The decision reads the terminal's description strings and whether the
//! protocol-specific environment markers are set; the environment itself is
//! read by the surrounding process.

use vstd::prelude::*;

use crate::text::{spec_contains, str_contains};

verus! {

/// Terminal capabilities information.
pub struct TerminalCapabilities {
    /// Supports the kitty graphics protocol.
    pub supports_kitty: bool,
    /// Supports the iTerm2 graphics protocol.
    pub supports_iterm: bool,
    /// Supports SIXEL graphics.
    pub supports_sixel: bool,
}

/// Detect terminal capabilities for image display: kitty by its name in the
/// terminal program or its window marker, iTerm2 by its name or its session
/// marker, SIXEL by its name in the terminal description.
pub fn detect_terminal_capabilities(
    term: &str,
    term_program: &str,
    kitty_window_marker: bool,
    iterm_session_marker: bool,
) -> (r: TerminalCapabilities)
    ensures
        r.supports_kitty == (spec_contains(term_program@, "kitty"@) || kitty_window_marker),
        r.supports_iterm == (spec_contains(term_program@, "iTerm"@) || iterm_session_marker),
        r.supports_sixel == spec_contains(term@, "sixel"@),
{
    TerminalCapabilities {
        supports_kitty: str_contains(term_program, "kitty") || kitty_window_marker,
        supports_iterm: str_contains(term_program, "iTerm") || iterm_session_marker,
        supports_sixel: str_contains(term, "sixel"),
    }
}

} // verus!
