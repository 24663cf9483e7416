//! The iTerm2 graphics backend.

use vstd::prelude::*;

use crate::text::str_eq;

verus! {

/// Display an image using the iTerm2 protocol: only under the iTerm terminal
/// program; imgcat shows it, or failing that the system preview. The helpers
/// run outside; their outcomes are handed in and consulted only under iTerm.
pub fn try_display(term_program: &str, imgcat_succeeded: bool, preview_succeeded: bool) -> (r: bool)
    ensures
        term_program@ != "iTerm.app"@ ==> r == false,
        term_program@ == "iTerm.app"@ ==> r == (imgcat_succeeded || preview_succeeded),
{
    if !str_eq(term_program, "iTerm.app") {
        return false;
    }
    imgcat_succeeded || preview_succeeded
}

} // verus!
