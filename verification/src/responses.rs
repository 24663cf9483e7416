//! Classification of what the camera sends back.
//!
//! The camera answers every request over HTTP; bodies are raw bytes. Whether
//! a body is a JPEG, an error text in disguise, or something to try the next
//! URL format over is decided here, on the bytes alone.

use vstd::prelude::*;

use crate::spec_starts_with_soi;
use crate::text::{bytes_contain, spec_bytes_contain};

verus! {

/// How much of a body is inspected when looking for error text.
pub const ERROR_TEXT_WINDOW: usize = 100;

/// What to make of a body fetched for binary image data.
#[derive(Clone, Copy, PartialEq, Eq, Structural, Debug)]
pub enum BinaryVerdict {
    /// The body begins with the JPEG start-of-image marker: a valid image.
    ValidJpeg,
    /// The body is error text dressed as a payload.
    ErrorText,
    /// Neither a JPEG nor recognizable error text; some cameras answer in
    /// other formats, so the caller decides what to do with it.
    Unrecognized,
}

/// A body longer than ten bytes whose leading window holds one of the known
/// error markers is error text.
pub open spec fn spec_is_error_text(body: Seq<u8>) -> bool {
    body.len() > 10 && {
        let window = if body.len() < 100 {
            body
        } else {
            body.subrange(0, 100)
        };
        spec_bytes_contain(window, "ERROR"@.map_values(|c: char| c as u8)) || spec_bytes_contain(
            window,
            "error"@.map_values(|c: char| c as u8),
        ) || spec_bytes_contain(window, "Not Found"@.map_values(|c: char| c as u8))
    }
}

/// The byte rendering of an ASCII marker.
fn marker_bytes(upper: bool) -> (r: Vec<u8>)
    ensures
        upper ==> r@ == "ERROR"@.map_values(|c: char| c as u8),
        !upper ==> r@ == "error"@.map_values(|c: char| c as u8),
{
    let mut v: Vec<u8> = Vec::new();
    if upper {
        proof {
            reveal_strlit("ERROR");
        }
        v.push(69);
        v.push(82);
        v.push(82);
        v.push(79);
        v.push(82);
        assert(v@ =~= "ERROR"@.map_values(|c: char| c as u8));
    } else {
        proof {
            reveal_strlit("error");
        }
        v.push(101);
        v.push(114);
        v.push(114);
        v.push(111);
        v.push(114);
        assert(v@ =~= "error"@.map_values(|c: char| c as u8));
    }
    v
}

/// The byte rendering of the "Not Found" marker.
fn not_found_bytes() -> (r: Vec<u8>)
    ensures
        r@ == "Not Found"@.map_values(|c: char| c as u8),
{
    proof {
        reveal_strlit("Not Found");
    }
    let mut v: Vec<u8> = Vec::new();
    v.push(78);
    v.push(111);
    v.push(116);
    v.push(32);
    v.push(70);
    v.push(111);
    v.push(117);
    v.push(110);
    v.push(100);
    assert(v@ =~= "Not Found"@.map_values(|c: char| c as u8));
    v
}

/// Whether a body is error text dressed as a payload: longer than ten bytes,
/// with a known error marker in its leading window.
pub fn is_error_text(body: &[u8]) -> (r: bool)
    ensures
        r == spec_is_error_text(body@),
{
    if body.len() <= 10 {
        return false;
    }
    let window: &[u8] = if body.len() < ERROR_TEXT_WINDOW {
        body
    } else {
        &body[0..ERROR_TEXT_WINDOW]
    };
    let upper = marker_bytes(true);
    let lower = marker_bytes(false);
    let not_found = not_found_bytes();
    bytes_contain(window, upper.as_slice()) || bytes_contain(window, lower.as_slice())
        || bytes_contain(window, not_found.as_slice())
}

/// Classify a successful binary response by its body: a JPEG is valid, a
/// recognizable error text is an error, and anything else is left to the
/// caller (some cameras answer in other formats).
pub fn classify_binary_body(body: &[u8]) -> (r: BinaryVerdict)
    ensures
        spec_starts_with_soi(body@) ==> r == BinaryVerdict::ValidJpeg,
        !spec_starts_with_soi(body@) && spec_is_error_text(body@) ==> r == BinaryVerdict::ErrorText,
        !spec_starts_with_soi(body@) && !spec_is_error_text(body@) ==> r
            == BinaryVerdict::Unrecognized,
{
    if crate::starts_with_soi(body) {
        BinaryVerdict::ValidJpeg
    } else if is_error_text(body) {
        BinaryVerdict::ErrorText
    } else {
        BinaryVerdict::Unrecognized
    }
}

/// Whether image data fetched for viewing is worth keeping: a JPEG always,
/// and an unrecognized body too — only recognizable error text is refused
/// and the next URL format tried.
pub fn image_data_acceptable(body: &[u8]) -> (r: bool)
    ensures
        r == (spec_starts_with_soi(body@) || !spec_is_error_text(body@)),
{
    crate::starts_with_soi(body) || !is_error_text(body)
}

/// Whether data is valid enough to view: long enough to be an image at all,
/// and beginning with the JPEG start-of-image marker.
pub fn image_viewable(body: &[u8]) -> (r: bool)
    ensures
        r == (body@.len() >= 100 && spec_starts_with_soi(body@)),
{
    body.len() >= 100 && crate::starts_with_soi(body)
}

/// The camera reports a failed deletion inside a successful response, as a
/// body holding this marker.
pub open spec fn spec_delete_refused(body: Seq<u8>) -> bool {
    spec_bytes_contain(body, "WIFI_INTERNAL_ERROR"@.map_values(|c: char| c as u8))
}

/// Whether one deletion attempt succeeded: the request went through and the
/// body does not carry the camera's internal-error marker. A refused attempt
/// moves on to the next deletion URL.
pub fn delete_attempt_succeeded(status_ok: bool, body: &[u8]) -> (r: bool)
    ensures
        r == (status_ok && !spec_delete_refused(body@)),
{
    if !status_ok {
        return false;
    }
    proof {
        reveal_strlit("WIFI_INTERNAL_ERROR");
    }
    let mut marker: Vec<u8> = Vec::new();
    marker.push(87);
    marker.push(73);
    marker.push(70);
    marker.push(73);
    marker.push(95);
    marker.push(73);
    marker.push(78);
    marker.push(84);
    marker.push(69);
    marker.push(82);
    marker.push(78);
    marker.push(65);
    marker.push(76);
    marker.push(95);
    marker.push(69);
    marker.push(82);
    marker.push(82);
    marker.push(79);
    marker.push(82);
    assert(marker@ =~= "WIFI_INTERNAL_ERROR"@.map_values(|c: char| c as u8));
    !bytes_contain(body, marker.as_slice())
}

/// What an error-status response amounts to: a body that is nonetheless a
/// JPEG is kept as the payload; anything else stays an error.
pub fn error_body_salvageable(body: &[u8]) -> (r: bool)
    ensures
        r == spec_starts_with_soi(body@),
{
    crate::starts_with_soi(body)
}

} // verus!
