//! The camera's CGI URL vocabulary.
//!
//! The camera is driven entirely through GET requests against a small set of
//! CGI endpoints; which URL works for a given firmware varies, so most
//! operations try an ordered list of formats. The lists are built here, with
//! their exact contents in the contracts; the requests themselves are made by
//! the surrounding process.

use vstd::prelude::*;
use vstd::string::StrSliceExecFns;
use vstd::string::StringExecFns;

use crate::text::{ascii_uppercase, spec_ends_with, spec_starts_with, spec_upper,
    str_ends_with, str_ends_with_char, str_starts_with};

verus! {

/// A base URL always carries a trailing slash, so endpoints can be appended
/// directly.
pub fn normalize_base_url(base_url: &str) -> (r: String)
    ensures
        base_url@.len() > 0 && base_url@.last() == '/' ==> r@ == base_url@,
        !(base_url@.len() > 0 && base_url@.last() == '/') ==> r@ == base_url@ + "/"@,
{
    let mut s = String::from_str(base_url);
    if !str_ends_with_char(base_url, '/') {
        s.append("/");
    }
    s
}

/// Join a base URL (with its trailing slash) and an endpoint. An endpoint
/// that is already a full URL — it starts with "http" — stands alone.
pub fn join_url(base_url: &str, endpoint: &str) -> (r: String)
    ensures
        spec_starts_with(endpoint@, "http"@) ==> r@ == endpoint@,
        !spec_starts_with(endpoint@, "http"@) ==> r@ == base_url@ + endpoint@,
{
    if str_starts_with(endpoint, "http") {
        String::from_str(endpoint)
    } else {
        let mut s = String::from_str(base_url);
        s.append(endpoint);
        s
    }
}

/// URL format utilities for accessing images.
pub struct UrlFormatGenerator;

impl UrlFormatGenerator {
    /// Generate the URL formats to try for accessing one image, most likely
    /// first: thumbnail endpoints with and without the leading slash or the
    /// directory parameter, direct paths, the full-image and resized-image
    /// endpoints, and upper- and lowercased variants.
    pub fn generate_url_formats(base_url: &str, image_name: &str) -> (r: Vec<String>)
        ensures
            r@.len() == 10,
            r@[0]@ == base_url@ + "get_thumbnail.cgi?DIR=/DCIM/100OLYMP&FILE="@ + image_name@
                + "&size=1024"@,
            r@[1]@ == base_url@ + "get_thumbnail.cgi?DIR=DCIM/100OLYMP&FILE="@ + image_name@
                + "&size=1024"@,
            r@[2]@ == base_url@ + "get_thumbnail.cgi?FILE="@ + image_name@ + "&size=1024"@,
            r@[3]@ == base_url@ + "DCIM/100OLYMP/"@ + image_name@,
            r@[4]@ == base_url@ + "get_img.cgi?DIR=/DCIM/100OLYMP&FILE="@ + image_name@,
            r@[5]@ == base_url@ + "get_img.cgi?DIR=DCIM/100OLYMP&FILE="@ + image_name@,
            r@[6]@ == base_url@ + "get_resized_img.cgi?DIR=/DCIM/100OLYMP&FILE="@ + image_name@
                + "&size=1024"@,
            r@[7]@ == base_url@ + "get_img.cgi?PATH=/DCIM/100OLYMP/"@ + image_name@,
            r@[8]@ == base_url@ + "get_thumbnail.cgi?DIR=/DCIM/100OLYMP&FILE="@ + spec_upper(
                image_name@,
            ) + "&size=1024"@,
            r@[9]@ == base_url@ + "get_thumbnail.cgi?DIR=/dcim/100olymp&FILE="@ + image_name@
                + "&size=1024"@,
    {
        let mut v: Vec<String> = Vec::new();
        let mut s = String::from_str(base_url);
        s.append("get_thumbnail.cgi?DIR=/DCIM/100OLYMP&FILE=");
        s.append(image_name);
        s.append("&size=1024");
        v.push(s);
        let mut s = String::from_str(base_url);
        s.append("get_thumbnail.cgi?DIR=DCIM/100OLYMP&FILE=");
        s.append(image_name);
        s.append("&size=1024");
        v.push(s);
        let mut s = String::from_str(base_url);
        s.append("get_thumbnail.cgi?FILE=");
        s.append(image_name);
        s.append("&size=1024");
        v.push(s);
        let mut s = String::from_str(base_url);
        s.append("DCIM/100OLYMP/");
        s.append(image_name);
        v.push(s);
        let mut s = String::from_str(base_url);
        s.append("get_img.cgi?DIR=/DCIM/100OLYMP&FILE=");
        s.append(image_name);
        v.push(s);
        let mut s = String::from_str(base_url);
        s.append("get_img.cgi?DIR=DCIM/100OLYMP&FILE=");
        s.append(image_name);
        v.push(s);
        let mut s = String::from_str(base_url);
        s.append("get_resized_img.cgi?DIR=/DCIM/100OLYMP&FILE=");
        s.append(image_name);
        s.append("&size=1024");
        v.push(s);
        let mut s = String::from_str(base_url);
        s.append("get_img.cgi?PATH=/DCIM/100OLYMP/");
        s.append(image_name);
        v.push(s);
        let mut s = String::from_str(base_url);
        s.append("get_thumbnail.cgi?DIR=/DCIM/100OLYMP&FILE=");
        let upper = ascii_uppercase(image_name);
        s.append(upper.as_str());
        s.append("&size=1024");
        v.push(s);
        let mut s = String::from_str(base_url);
        s.append("get_thumbnail.cgi?DIR=/dcim/100olymp&FILE=");
        s.append(image_name);
        s.append("&size=1024");
        v.push(s);
        v
    }
}

/// The endpoints to try, in order, when downloading one image to a file.
pub fn download_urls(base_url: &str, image_name: &str) -> (r: Vec<String>)
    ensures
        r@.len() == 3,
        r@[0]@ == base_url@ + "get_thumbnail.cgi?DIR=/DCIM/100OLYMP&FILE="@ + image_name@,
        r@[1]@ == base_url@ + "DCIM/100OLYMP/"@ + image_name@,
        r@[2]@ == base_url@ + "get_img.cgi?DIR=/DCIM/100OLYMP&FILE="@ + image_name@,
{
    let mut v: Vec<String> = Vec::new();
    let mut s = String::from_str(base_url);
    s.append("get_thumbnail.cgi?DIR=/DCIM/100OLYMP&FILE=");
    s.append(image_name);
    v.push(s);
    let mut s = String::from_str(base_url);
    s.append("DCIM/100OLYMP/");
    s.append(image_name);
    v.push(s);
    let mut s = String::from_str(base_url);
    s.append("get_img.cgi?DIR=/DCIM/100OLYMP&FILE=");
    s.append(image_name);
    v.push(s);
    v
}

/// The endpoints to try, in order, when fetching one image's data for
/// viewing.
pub fn image_data_urls(base_url: &str, image_name: &str) -> (r: Vec<String>)
    ensures
        r@.len() == 7,
        r@[0]@ == base_url@ + "get_thumbnail.cgi?DIR=/DCIM/100OLYMP&FILE="@ + image_name@
            + "&size=1024"@,
        r@[1]@ == base_url@ + "get_thumbnail.cgi?DIR=DCIM/100OLYMP&FILE="@ + image_name@
            + "&size=1024"@,
        r@[2]@ == base_url@ + "get_thumbnail.cgi?DIR=DCIM/100OLYMP&FILE="@ + image_name@
            + "&size=1024"@,
        r@[3]@ == base_url@ + "DCIM/100OLYMP/"@ + image_name@,
        r@[4]@ == base_url@ + "/DCIM/100OLYMP/"@ + image_name@,
        r@[5]@ == base_url@ + "get_img.cgi?DIR=/DCIM/100OLYMP&FILE="@ + image_name@,
        r@[6]@ == base_url@ + "get_resized_img.cgi?DIR=/DCIM/100OLYMP&FILE="@ + image_name@,
{
    let mut v: Vec<String> = Vec::new();
    let mut s = String::from_str(base_url);
    s.append("get_thumbnail.cgi?DIR=/DCIM/100OLYMP&FILE=");
    s.append(image_name);
    s.append("&size=1024");
    v.push(s);
    let mut s = String::from_str(base_url);
    s.append("get_thumbnail.cgi?DIR=DCIM/100OLYMP&FILE=");
    s.append(image_name);
    s.append("&size=1024");
    v.push(s);
    let mut s = String::from_str(base_url);
    s.append("get_thumbnail.cgi?DIR=DCIM/100OLYMP&FILE=");
    s.append(image_name);
    s.append("&size=1024");
    v.push(s);
    let mut s = String::from_str(base_url);
    s.append("DCIM/100OLYMP/");
    s.append(image_name);
    v.push(s);
    let mut s = String::from_str(base_url);
    s.append("/DCIM/100OLYMP/");
    s.append(image_name);
    v.push(s);
    let mut s = String::from_str(base_url);
    s.append("get_img.cgi?DIR=/DCIM/100OLYMP&FILE=");
    s.append(image_name);
    v.push(s);
    let mut s = String::from_str(base_url);
    s.append("get_resized_img.cgi?DIR=/DCIM/100OLYMP&FILE=");
    s.append(image_name);
    v.push(s);
    v
}

/// The endpoints to try, in order, for loading one image directly when every
/// thumbnail format failed.
pub fn direct_image_urls(base_url: &str, image_name: &str) -> (r: Vec<String>)
    ensures
        r@.len() == 3,
        r@[0]@ == base_url@ + "DCIM/100OLYMP/"@ + image_name@,
        r@[1]@ == base_url@ + "/DCIM/100OLYMP/"@ + image_name@,
        r@[2]@ == base_url@ + "get_img.cgi?DIR=/DCIM/100OLYMP&FILE="@ + image_name@,
{
    let mut v: Vec<String> = Vec::new();
    let mut s = String::from_str(base_url);
    s.append("DCIM/100OLYMP/");
    s.append(image_name);
    v.push(s);
    let mut s = String::from_str(base_url);
    s.append("/DCIM/100OLYMP/");
    s.append(image_name);
    v.push(s);
    let mut s = String::from_str(base_url);
    s.append("get_img.cgi?DIR=/DCIM/100OLYMP&FILE=");
    s.append(image_name);
    v.push(s);
    v
}

/// The URL that switches the camera to playback mode, a precondition of
/// deleting.
pub fn play_mode_url(base_url: &str) -> (r: String)
    ensures
        r@ == base_url@ + "switch_cameramode.cgi?mode=play"@,
{
    let mut s = String::from_str(base_url);
    s.append("switch_cameramode.cgi?mode=play");
    s
}

/// The deletion endpoints to try, in order: the standard erase URL, the
/// variant with an explicit command parameter, and the direct-path variant.
pub fn delete_urls(base_url: &str, image_name: &str) -> (r: Vec<String>)
    ensures
        r@.len() == 3,
        r@[0]@ == base_url@ + "exec_erase.cgi?DIR=/DCIM/100OLYMP&FILE="@ + image_name@,
        r@[1]@ == base_url@ + "exec_erase.cgi?com=exec&DIR=/DCIM/100OLYMP&FILE="@ + image_name@,
        r@[2]@ == base_url@ + "exec_erase.cgi?DIR=/DCIM/100OLYMP/"@ + image_name@,
{
    let mut v: Vec<String> = Vec::new();
    let mut s = String::from_str(base_url);
    s.append("exec_erase.cgi?DIR=/DCIM/100OLYMP&FILE=");
    s.append(image_name);
    v.push(s);
    let mut s = String::from_str(base_url);
    s.append("exec_erase.cgi?com=exec&DIR=/DCIM/100OLYMP&FILE=");
    s.append(image_name);
    v.push(s);
    let mut s = String::from_str(base_url);
    s.append("exec_erase.cgi?DIR=/DCIM/100OLYMP/");
    s.append(image_name);
    v.push(s);
    v
}

/// The image-list endpoint.
pub fn image_list_url(base_url: &str) -> (r: String)
    ensures
        r@ == base_url@ + "get_imglist.cgi?DIR=/DCIM/100OLYMP"@,
{
    let mut s = String::from_str(base_url);
    s.append("get_imglist.cgi?DIR=/DCIM/100OLYMP");
    s
}

/// The photo-capture endpoint.
pub fn take_photo_url(base_url: &str) -> (r: String)
    ensures
        r@ == base_url@ + "exec_takemotion.cgi?com=newstarttake"@,
{
    let mut s = String::from_str(base_url);
    s.append("exec_takemotion.cgi?com=newstarttake");
    s
}

/// The URL that fetches an image at the named resolution: thumbnails for the
/// low level, the resized image for the medium level, the full image for the
/// high level — and thumbnails again for any name the camera does not know.
/// The name is read without regard to ASCII case.
pub fn resolution_url(image_path: &str, resolution: &str) -> (r: String)
    ensures
        ({
            let folded = crate::text::spec_lower(resolution@);
            if folded == "medium"@ {
                r@ == "get_resized_img.cgi?DIR="@ + image_path@ + "&size=2048"@
            } else if folded == "high"@ || folded == "full"@ {
                r@ == "get_img.cgi?DIR="@ + image_path@
            } else {
                r@ == "get_thumbnail.cgi?DIR="@ + image_path@ + "&size=1024"@
            }
        }),
{
    let folded = crate::text::ascii_lowercase(resolution);
    if crate::text::str_eq(folded.as_str(), "medium") {
        let mut s = String::from_str("get_resized_img.cgi?DIR=");
        s.append(image_path);
        s.append("&size=2048");
        s
    } else if crate::text::str_eq(folded.as_str(), "high") || crate::text::str_eq(
        folded.as_str(),
        "full",
    ) {
        let mut s = String::from_str("get_img.cgi?DIR=");
        s.append(image_path);
        s
    } else {
        let mut s = String::from_str("get_thumbnail.cgi?DIR=");
        s.append(image_path);
        s.append("&size=1024");
        s
    }
}

/// The URL to retry with when asking for a higher resolution: a thumbnail
/// request (every URL this library builds carries its size parameter as the
/// suffix) has its size doubled; any other URL is used as it is.
pub fn higher_resolution_url(url: &str) -> (r: String)
    ensures
        spec_ends_with(url@, "&size=1024"@) ==> r@ == url@.subrange(0, url@.len() - 10)
            + "&size=2048"@,
        !spec_ends_with(url@, "&size=1024"@) ==> r@ == url@,
{
    let len = url.unicode_len();
    if str_ends_with(url, "&size=1024") {
        proof {
            reveal_strlit("&size=1024");
        }
        let prefix = url.substring_char(0, len - 10);
        let mut s = String::from_str(prefix);
        s.append("&size=2048");
        s
    } else {
        String::from_str(url)
    }
}

} // verus!
