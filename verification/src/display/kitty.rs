//! The kitty graphics backend.

use vstd::prelude::*;

verus! {

/// Terminal capabilities information.
pub struct TerminalCapabilities {
    /// Supports the kitty graphics protocol.
    pub supports_kitty: bool,
    /// Supports the iTerm2 graphics protocol.
    pub supports_iterm: bool,
    /// Supports SIXEL graphics.
    pub supports_sixel: bool,
}

/// Try to display an image using the kitty graphics protocol. The protocol
/// is actually driven by the library renderer, so this backend exists for
/// interface consistency and always defers: nothing is displayed here.
pub fn try_display(_width: u32, _height: u32, capabilities: &TerminalCapabilities) -> (r: bool)
    ensures
        r == false,
{
    if !capabilities.supports_kitty {
        return false;
    }
    false
}

} // verus!
