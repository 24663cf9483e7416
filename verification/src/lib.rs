//! Control and live-view client for a WiFi-attached camera.
//!
//! The heart of the library is the live-view streaming engine: parsing the
//! camera's RTP-like packet headers, reassembling JPEG frames from lossy UDP
//! packet streams, pacing frame delivery to an external player, and managing
//! the session lifecycle. All decision logic is specified and verified here;
//! the surrounding process does the actual socket, pipe and HTTP work.

use vstd::prelude::*;

pub mod app_state;
pub mod commands;
pub mod detection;
pub mod display;
pub mod handlers;
pub mod listing;
pub mod photo;
pub mod reassembler;
pub mod responses;
pub mod rtp;
pub mod session;
pub mod sink;
pub mod stats;
pub mod supervisor;
pub mod text;
pub mod urls;
pub mod viewer;
pub mod worker;

verus! {

/// The two-byte JPEG start-of-image marker: 0xFF followed by 0xD8.
pub open spec fn spec_starts_with_soi(data: Seq<u8>) -> bool {
    data.len() >= 2 && data[0] == 0xff && data[1] == 0xd8
}

/// A byte buffer is a candidate JPEG frame exactly when it begins with the
/// start-of-image marker.
pub fn starts_with_soi(data: &[u8]) -> (r: bool)
    ensures
        r == spec_starts_with_soi(data@),
{
    data.len() >= 2 && data[0] == 0xff && data[1] == 0xd8
}

} // verus!
