//! Photo capture: the warm-up sequence and the verification of what it
//! captured.
//!
//! Taking a photo sends a warm-up shot first, waits for the camera to settle
//! between commands, and afterwards compares the camera's image list against
//! the one from before the sequence to see what was captured.

use vstd::prelude::*;

verus! {

/// Wait after each shot, for the camera to process it.
pub const PHOTO_PROCESS_WAIT_MS: u64 = 3000;

/// How many new images a full warm-up sequence is expected to leave: the
/// warm-up shot and the actual photo.
pub const EXPECTED_NEW_PHOTOS: usize = 2;

/// The commands that precede the shutter on every shot: back to record mode,
/// then a state query.
pub fn raw_photo_preamble() -> (r: Vec<&'static str>)
    ensures
        r@.len() == 2,
        r@[0]@ == "switch_cameramode.cgi?mode=rec"@,
        r@[1]@ == "get_state.cgi"@,
{
    let mut v: Vec<&'static str> = Vec::new();
    v.push("switch_cameramode.cgi?mode=rec");
    v.push("get_state.cgi");
    v
}

use crate::text::spec_name_listed;

/// The names of `current` that `existing` does not hold, in order.
pub open spec fn spec_new_names(existing: Seq<Seq<char>>, current: Seq<Seq<char>>) -> Seq<
    Seq<char>,
>
    decreases current.len(),
{
    if current.len() == 0 {
        Seq::empty()
    } else {
        spec_new_names(existing, current.drop_last()) + (if spec_name_listed(
            existing,
            current.last(),
        ) {
            Seq::empty()
        } else {
            seq![current.last()]
        })
    }
}

/// Whether the list holds the given name.
pub fn name_listed(names: &Vec<String>, name: &String) -> (r: bool)
    ensures
        r == spec_name_listed(names.deep_view(), name@),
{
    let mut i: usize = 0;
    while i < names.len()
        invariant
            i <= names@.len(),
            names.deep_view().len() == names@.len(),
            forall|k: int| 0 <= k < i ==> names.deep_view()[k] != name@,
        decreases names@.len() - i,
    {
        assert(names.deep_view()[i as int] == names@[i as int]@);
        if crate::text::str_eq(names[i].as_str(), name.as_str()) {
            return true;
        }
        i = i + 1;
    }
    false
}

/// The images that appeared since the sequence began: those of the current
/// list that the earlier list does not hold, in the camera's order.
pub fn new_images(existing: &Vec<String>, current: &Vec<String>) -> (r: Vec<String>)
    ensures
        r.deep_view() == spec_new_names(existing.deep_view(), current.deep_view()),
{
    let mut out: Vec<String> = Vec::new();
    let mut i: usize = 0;
    while i < current.len()
        invariant
            i <= current@.len(),
            current.deep_view().len() == current@.len(),
            out.deep_view() == spec_new_names(
                existing.deep_view(),
                current.deep_view().subrange(0, i as int),
            ),
        decreases current@.len() - i,
    {
        assert(current.deep_view()[i as int] == current@[i as int]@);
        let ghost prefix = current.deep_view().subrange(0, i as int);
        let ghost next_prefix = current.deep_view().subrange(0, i + 1);
        assert(next_prefix.drop_last() =~= prefix);
        assert(next_prefix.last() == current.deep_view()[i as int]);
        if !name_listed(existing, &current[i]) {
            out.push(current[i].clone());
            assert(out.deep_view() =~= spec_new_names(existing.deep_view(), next_prefix));
        } else {
            assert(out.deep_view() =~= spec_new_names(existing.deep_view(), next_prefix));
        }
        i = i + 1;
    }
    assert(current.deep_view().subrange(0, i as int) =~= current.deep_view());
    out
}

} // verus!
