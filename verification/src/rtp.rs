//! Parsing of the camera's RTP-like packet header.
//!
//! Every video datagram starts with a 12-byte prefix, structurally modeled on
//! RTP: version, padding/extension flags, CSRC count, marker flag, payload
//! type, a 16-bit sequence number, and a 32-bit field the camera repurposes
//! as a frame identifier. When the extension flag is set, bytes 14 and 15
//! hold the length of an extension header in 4-byte words, which moves the
//! payload offset.

use vstd::prelude::*;

verus! {

/// Fixed header length of every video packet.
pub const HEADER_LEN: usize = 12;

/// Payload type the camera uses for video packets.
pub const VIDEO_PAYLOAD_TYPE: u8 = 96;

/// Version field required of every video packet.
pub const VIDEO_VERSION: u8 = 2;

/// The fields of the RTP-like header, as decoded from one datagram.
#[derive(Clone, Copy, PartialEq, Eq, Structural, Debug)]
pub struct RtpHeader {
    /// Two-bit protocol version; video packets carry 2.
    pub version: u8,
    /// Padding flag.
    pub padding: bool,
    /// Extension flag; set on the first packet of a frame.
    pub extension: bool,
    /// Four-bit CSRC count.
    pub csrc_count: u8,
    /// Marker flag; set on the last packet of a frame.
    pub marker: bool,
    /// Seven-bit payload type; video packets carry 96.
    pub payload_type: u8,
    /// 16-bit packet sequence number.
    pub sequence: u16,
    /// 32-bit frame identifier (the camera's repurposed timestamp field).
    pub frame_id: u32,
}

/// Header fields of a packet, as a function of its first twelve bytes.
pub open spec fn spec_header(pkt: Seq<u8>) -> RtpHeader
    recommends
        pkt.len() >= HEADER_LEN,
{
    RtpHeader {
        version: (pkt[0] & 0xc0) >> 6,
        padding: pkt[0] & 0x20 != 0,
        extension: pkt[0] & 0x10 != 0,
        csrc_count: pkt[0] & 0x0f,
        marker: pkt[1] & 0x80 != 0,
        payload_type: pkt[1] & 0x7f,
        sequence: ((pkt[2] as u16) << 8) | (pkt[3] as u16),
        frame_id: ((pkt[4] as u32) << 24) | ((pkt[5] as u32) << 16) | ((pkt[6] as u32) << 8)
            | (pkt[7] as u32),
    }
}

/// The extension-header length in 4-byte words. The camera sends it in bytes
/// 14 and 15; a first packet too short to hold them counts as length zero.
pub open spec fn spec_ext_words(pkt: Seq<u8>) -> u16 {
    if pkt.len() >= 16 {
        ((pkt[14] as u16) << 8) | (pkt[15] as u16)
    } else {
        0
    }
}

/// Offset of the payload in a first-of-frame packet: the fixed header, the
/// 4-byte extension-header prefix, and the extension words.
pub open spec fn spec_first_payload_offset(pkt: Seq<u8>) -> int {
    HEADER_LEN + 4 + 4 * (spec_ext_words(pkt) as int)
}

/// A packet is shaped like video at all only under the version and
/// payload-type constraints; anything else is not part of the video stream.
pub open spec fn spec_is_video(h: RtpHeader) -> bool {
    h.version == VIDEO_VERSION && h.payload_type == VIDEO_PAYLOAD_TYPE
}

/// Decode the RTP-like header from one datagram. Packets shorter than the
/// fixed header cannot be video packets and yield `None`.
pub fn parse_header(pkt: &[u8]) -> (r: Option<RtpHeader>)
    ensures
        pkt@.len() >= HEADER_LEN ==> r == Some(spec_header(pkt@)),
        pkt@.len() < HEADER_LEN ==> r is None,
{
    if pkt.len() < HEADER_LEN {
        return None;
    }
    Some(
        RtpHeader {
            version: (pkt[0] & 0xc0) >> 6,
            padding: pkt[0] & 0x20 != 0,
            extension: pkt[0] & 0x10 != 0,
            csrc_count: pkt[0] & 0x0f,
            marker: pkt[1] & 0x80 != 0,
            payload_type: pkt[1] & 0x7f,
            sequence: ((pkt[2] as u16) << 8) | (pkt[3] as u16),
            frame_id: ((pkt[4] as u32) << 24) | ((pkt[5] as u32) << 16) | ((pkt[6] as u32) << 8)
                | (pkt[7] as u32),
        },
    )
}

/// Read the extension-header length in words from a first-of-frame packet.
pub fn ext_words(pkt: &[u8]) -> (r: u16)
    ensures
        r == spec_ext_words(pkt@),
{
    if pkt.len() >= 16 {
        ((pkt[14] as u16) << 8) | (pkt[15] as u16)
    } else {
        0
    }
}

} // verus!
