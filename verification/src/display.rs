//! Decisions of the image display backends.
//!
//! Each backend decides, from the terminal's description and the outcomes of
//! the external helpers it would run, whether it displayed the image. The
//! helpers themselves (imgcat, a preview, a SIXEL converter, the fallback
//! renderer) run outside; their exit outcomes are handed in.

pub mod iterm;
pub mod kitty;
pub mod sixel;

use vstd::prelude::*;

verus! {

/// The display backends the automatic method can consult.
#[derive(Clone, Copy, PartialEq, Eq, Structural, Debug)]
pub enum DisplayBackend {
    /// The iTerm2 graphics protocol.
    ITerm,
    /// The kitty graphics protocol.
    Kitty,
    /// SIXEL graphics.
    Sixel,
    /// The library renderer.
    Renderer,
    /// Basic terminal tools.
    Basic,
}

/// The automatic order: the supported protocol backends, most sophisticated
/// first, then the renderer, then the basic tools.
pub open spec fn spec_auto_order(iterm: bool, kitty: bool, sixel: bool) -> Seq<DisplayBackend> {
    (if iterm {
        seq![DisplayBackend::ITerm]
    } else {
        Seq::empty()
    }) + (if kitty {
        seq![DisplayBackend::Kitty]
    } else {
        Seq::empty()
    }) + (if sixel {
        seq![DisplayBackend::Sixel]
    } else {
        Seq::empty()
    }) + seq![DisplayBackend::Renderer, DisplayBackend::Basic]
}

/// The backends the automatic method tries, in order.
pub fn auto_backend_order(capabilities: &kitty::TerminalCapabilities) -> (r: Vec<DisplayBackend>)
    ensures
        r@ == spec_auto_order(
            capabilities.supports_iterm,
            capabilities.supports_kitty,
            capabilities.supports_sixel,
        ),
{
    let mut v: Vec<DisplayBackend> = Vec::new();
    if capabilities.supports_iterm {
        v.push(DisplayBackend::ITerm);
    }
    if capabilities.supports_kitty {
        v.push(DisplayBackend::Kitty);
    }
    if capabilities.supports_sixel {
        v.push(DisplayBackend::Sixel);
    }
    v.push(DisplayBackend::Renderer);
    v.push(DisplayBackend::Basic);
    assert(v@ =~= spec_auto_order(
        capabilities.supports_iterm,
        capabilities.supports_kitty,
        capabilities.supports_sixel,
    ));
    v
}

/// The one backend a fixed display method uses.
pub fn method_backend(method: crate::viewer::DisplayMethod) -> (r: Option<DisplayBackend>)
    ensures
        method is ITerm ==> r == Some(DisplayBackend::ITerm),
        method is Kitty ==> r == Some(DisplayBackend::Kitty),
        method is Sixel ==> r == Some(DisplayBackend::Sixel),
        method is Basic ==> r == Some(DisplayBackend::Basic),
        method is Auto ==> r is None,
{
    match method {
        crate::viewer::DisplayMethod::ITerm => Some(DisplayBackend::ITerm),
        crate::viewer::DisplayMethod::Kitty => Some(DisplayBackend::Kitty),
        crate::viewer::DisplayMethod::Sixel => Some(DisplayBackend::Sixel),
        crate::viewer::DisplayMethod::Basic => Some(DisplayBackend::Basic),
        crate::viewer::DisplayMethod::Auto => None,
    }
}

} // verus!
