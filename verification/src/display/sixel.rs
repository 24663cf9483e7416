//! The SIXEL graphics backend.

use vstd::prelude::*;

use crate::text::{spec_contains, str_contains};

verus! {

/// Display an image using SIXEL: only in a terminal whose description names
/// sixel; the converter runs outside and its outcome is handed in, consulted
/// only when the terminal qualifies.
pub fn try_display(term: &str, img2sixel_succeeded: bool) -> (r: bool)
    ensures
        !spec_contains(term@, "sixel"@) ==> r == false,
        spec_contains(term@, "sixel"@) ==> r == img2sixel_succeeded,
{
    if !str_contains(term, "sixel") {
        return false;
    }
    img2sixel_succeeded
}

} // verus!
