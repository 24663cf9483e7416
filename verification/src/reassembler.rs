//! Incremental reassembly of one JPEG frame from consecutive UDP packets.
//!
//! The reassembler holds at most one frame in flight. A first-of-frame packet
//! opens assembly; middle and last packets extend it only when their sequence
//! number and frame identifier continue the run exactly; any violation
//! discards the partial frame and returns to idle. A completed buffer is a
//! frame only if it begins with the JPEG start-of-image marker.

use vstd::prelude::*;

use crate::rtp::{
    spec_header, spec_is_video, spec_ext_words, spec_first_payload_offset, RtpHeader, HEADER_LEN,
};
use crate::spec_starts_with_soi;

verus! {

/// Assembly state, as the contracts speak of it: either idle, or assembling
/// one frame with a known next sequence number, frame identifier, and the
/// bytes accumulated so far.
pub enum AsmModel {
    Idle,
    Assembling { next_seq: u16, frame: u32, buf: Seq<u8> },
}

/// Outcome of feeding one packet, as the contracts speak of it.
pub enum OutcomeModel {
    Continue,
    FrameComplete(Seq<u8>),
    Reset,
}

/// Outcome of feeding one packet to the reassembler.
pub enum AssemblyOutcome {
    /// The packet was consumed (or ignored) and no frame is ready.
    Continue,
    /// A frame completed and starts with the start-of-image marker.
    FrameComplete(Vec<u8>),
    /// The packet violated assembly; any partial frame was discarded.
    Reset,
}

impl View for AssemblyOutcome {
    type V = OutcomeModel;

    open spec fn view(&self) -> OutcomeModel {
        match self {
            AssemblyOutcome::Continue => OutcomeModel::Continue,
            AssemblyOutcome::FrameComplete(v) => OutcomeModel::FrameComplete(v@),
            AssemblyOutcome::Reset => OutcomeModel::Reset,
        }
    }
}

/// The sequence number that continues a run after `s`: one greater, wrapping
/// at the 16-bit boundary.
pub open spec fn seq_after(s: u16) -> u16 {
    ((s + 1) % 0x10000) as u16
}

/// Header shape of a first-of-frame packet: video, no padding, extension
/// present, marker clear.
pub open spec fn is_first_shape(h: RtpHeader) -> bool {
    spec_is_video(h) && !h.padding && h.extension && !h.marker
}

/// Header shape of a middle packet: video, no padding, no extension, zero
/// CSRC count, marker clear.
pub open spec fn is_middle_shape(h: RtpHeader) -> bool {
    spec_is_video(h) && !h.padding && !h.extension && h.csrc_count == 0 && !h.marker
}

/// Header shape of a last-of-frame packet: as a middle packet, marker set.
pub open spec fn is_last_shape(h: RtpHeader) -> bool {
    spec_is_video(h) && !h.padding && !h.extension && h.csrc_count == 0 && h.marker
}

/// A middle or last packet continues the assembly `s` exactly when its
/// sequence number and frame identifier match what the first packet promised.
pub open spec fn continues(s: AsmModel, h: RtpHeader) -> bool {
    s matches AsmModel::Assembling { next_seq, frame, .. } && h.sequence == next_seq
        && h.frame_id == frame
}

/// The payload of a first-of-frame packet: everything after the fixed header
/// and the extension header, or nothing when the packet ends inside them.
pub open spec fn spec_first_payload(pkt: Seq<u8>) -> Seq<u8> {
    if spec_first_payload_offset(pkt) < pkt.len() {
        pkt.subrange(spec_first_payload_offset(pkt), pkt.len() as int)
    } else {
        Seq::empty()
    }
}

/// The payload of a middle or last packet: everything after the fixed header.
pub open spec fn spec_rest_payload(pkt: Seq<u8>) -> Seq<u8> {
    pkt.subrange(HEADER_LEN as int, pkt.len() as int)
}

/// One step of the reassembler on an already-decoded header, with the raw
/// packet at hand for the payload. Packets that are not shaped like video
/// are ignored and leave the state untouched; a first packet from idle opens
/// assembly; a continuing middle packet extends it; a continuing last packet
/// closes it, completing the frame exactly when the accumulated bytes begin
/// with the start-of-image marker; every other video packet discards any
/// partial frame and returns to idle.
pub open spec fn spec_transition(s: AsmModel, h: RtpHeader, pkt: Seq<u8>) -> (AsmModel,
    OutcomeModel) {
    if !spec_is_video(h) {
        (s, OutcomeModel::Continue)
    } else if is_first_shape(h) && s is Idle {
        (
            AsmModel::Assembling {
                next_seq: seq_after(h.sequence),
                frame: h.frame_id,
                buf: spec_first_payload(pkt),
            },
            OutcomeModel::Continue,
        )
    } else if is_middle_shape(h) && continues(s, h) {
        (
            AsmModel::Assembling {
                next_seq: seq_after(h.sequence),
                frame: h.frame_id,
                buf: s->buf + spec_rest_payload(pkt),
            },
            OutcomeModel::Continue,
        )
    } else if is_last_shape(h) && continues(s, h) {
        let full = s->buf + spec_rest_payload(pkt);
        if spec_starts_with_soi(full) {
            (AsmModel::Idle, OutcomeModel::FrameComplete(full))
        } else {
            (AsmModel::Idle, OutcomeModel::Reset)
        }
    } else {
        (AsmModel::Idle, OutcomeModel::Reset)
    }
}

/// One step of the reassembler on a raw datagram. Packets too short to hold
/// the fixed header are ignored.
pub open spec fn spec_step(s: AsmModel, pkt: Seq<u8>) -> (AsmModel, OutcomeModel) {
    if pkt.len() < HEADER_LEN {
        (s, OutcomeModel::Continue)
    } else {
        spec_transition(s, spec_header(pkt), pkt)
    }
}

/// Assembly of one JPEG frame across consecutive packets. One live instance
/// per session, driven by the worker alone.
pub struct FrameAssembly {
    assembling: bool,
    expected_seq: u16,
    current_frame_id: u32,
    buffer: Vec<u8>,
}

impl View for FrameAssembly {
    type V = AsmModel;

    closed spec fn view(&self) -> AsmModel {
        if self.assembling {
            AsmModel::Assembling {
                next_seq: self.expected_seq,
                frame: self.current_frame_id,
                buf: self.buffer@,
            }
        } else {
            AsmModel::Idle
        }
    }
}

impl FrameAssembly {
    /// A fresh reassembler, idle, with nothing in flight.
    pub fn new() -> (r: FrameAssembly)
        ensures
            r@ is Idle,
    {
        FrameAssembly { assembling: false, expected_seq: 0, current_frame_id: 0, buffer: Vec::new() }
    }

    /// Feed one datagram: classify it against the current state, accumulate
    /// its payload when it continues the frame in flight, and report the
    /// outcome. The state and outcome are exactly one step of `spec_step`.
    pub fn classify_and_accumulate(&mut self, pkt: &[u8]) -> (out: AssemblyOutcome)
        ensures
            (final(self)@, out@) == spec_step(old(self)@, pkt@),
    {
        if pkt.len() < HEADER_LEN {
            return AssemblyOutcome::Continue;
        }
        let h = match crate::rtp::parse_header(pkt) {
            Some(h) => h,
            None => {
                return AssemblyOutcome::Continue;
            },
        };
        if !(h.version == crate::rtp::VIDEO_VERSION && h.payload_type
            == crate::rtp::VIDEO_PAYLOAD_TYPE) {
            return AssemblyOutcome::Continue;
        }
        let first_shape = !h.padding && h.extension && !h.marker;
        let middle_shape = !h.padding && !h.extension && h.csrc_count == 0 && !h.marker;
        let last_shape = !h.padding && !h.extension && h.csrc_count == 0 && h.marker;
        let continues_run = self.assembling && h.sequence == self.expected_seq && h.frame_id
            == self.current_frame_id;
        if first_shape && !self.assembling {
            let ew = crate::rtp::ext_words(pkt);
            let offset: usize = HEADER_LEN + 4 + 4 * (ew as usize);
            self.buffer.clear();
            if offset < pkt.len() {
                append_range(&mut self.buffer, pkt, offset);
            }
            assert(self.buffer@ =~= spec_first_payload(pkt@));
            self.assembling = true;
            self.expected_seq = h.sequence.wrapping_add(1);
            self.current_frame_id = h.frame_id;
            AssemblyOutcome::Continue
        } else if middle_shape && continues_run {
            append_range(&mut self.buffer, pkt, HEADER_LEN);
            self.expected_seq = h.sequence.wrapping_add(1);
            AssemblyOutcome::Continue
        } else if last_shape && continues_run {
            append_range(&mut self.buffer, pkt, HEADER_LEN);
            self.assembling = false;
            let mut full = Vec::new();
            core::mem::swap(&mut full, &mut self.buffer);
            if crate::starts_with_soi(full.as_slice()) {
                AssemblyOutcome::FrameComplete(full)
            } else {
                AssemblyOutcome::Reset
            }
        } else {
            self.assembling = false;
            self.buffer.clear();
            AssemblyOutcome::Reset
        }
    }
}

/// From idle, a first-of-frame packet opens assembly: the frame identifier
/// and expected sequence number are taken from the packet, and the buffer is
/// exactly the packet's payload.
pub proof fn lemma_first_packet_opens(s: AsmModel, pkt: Seq<u8>)
    requires
        s is Idle,
        pkt.len() >= HEADER_LEN,
        is_first_shape(spec_header(pkt)),
    ensures
        spec_step(s, pkt) == (
            AsmModel::Assembling {
                next_seq: seq_after(spec_header(pkt).sequence),
                frame: spec_header(pkt).frame_id,
                buf: spec_first_payload(pkt),
            },
            OutcomeModel::Continue,
        ),
{
}

/// A clean first/middle/last triple — consecutive sequence numbers, one frame
/// identifier, concatenated payload beginning with the start-of-image marker —
/// assembles exactly one complete frame, whose bytes are the three payloads
/// in order, and leaves the reassembler idle.
pub proof fn lemma_clean_triple_assembles(s0: AsmModel, pkt1: Seq<u8>, pkt2: Seq<u8>, pkt3: Seq<u8>)
    requires
        s0 is Idle,
        pkt1.len() >= HEADER_LEN,
        pkt2.len() >= HEADER_LEN,
        pkt3.len() >= HEADER_LEN,
        is_first_shape(spec_header(pkt1)),
        is_middle_shape(spec_header(pkt2)),
        is_last_shape(spec_header(pkt3)),
        spec_header(pkt2).sequence == seq_after(spec_header(pkt1).sequence),
        spec_header(pkt3).sequence == seq_after(spec_header(pkt2).sequence),
        spec_header(pkt2).frame_id == spec_header(pkt1).frame_id,
        spec_header(pkt3).frame_id == spec_header(pkt1).frame_id,
        spec_starts_with_soi(
            spec_first_payload(pkt1) + spec_rest_payload(pkt2) + spec_rest_payload(pkt3),
        ),
    ensures
        ({
            let (s1, o1) = spec_step(s0, pkt1);
            let (s2, o2) = spec_step(s1, pkt2);
            let (s3, o3) = spec_step(s2, pkt3);
            o1 == OutcomeModel::Continue && o2 == OutcomeModel::Continue && o3
                == OutcomeModel::FrameComplete(
                spec_first_payload(pkt1) + spec_rest_payload(pkt2) + spec_rest_payload(pkt3),
            ) && s3 is Idle
        }),
{
}

/// A first/middle/last triple whose concatenated payload does not begin with
/// the start-of-image marker is discarded: the last packet yields a reset,
/// never a completed frame, and the reassembler returns to idle.
pub proof fn lemma_triple_without_soi_resets(
    s0: AsmModel,
    pkt1: Seq<u8>,
    pkt2: Seq<u8>,
    pkt3: Seq<u8>,
)
    requires
        s0 is Idle,
        pkt1.len() >= HEADER_LEN,
        pkt2.len() >= HEADER_LEN,
        pkt3.len() >= HEADER_LEN,
        is_first_shape(spec_header(pkt1)),
        is_middle_shape(spec_header(pkt2)),
        is_last_shape(spec_header(pkt3)),
        spec_header(pkt2).sequence == seq_after(spec_header(pkt1).sequence),
        spec_header(pkt3).sequence == seq_after(spec_header(pkt2).sequence),
        spec_header(pkt2).frame_id == spec_header(pkt1).frame_id,
        spec_header(pkt3).frame_id == spec_header(pkt1).frame_id,
        !spec_starts_with_soi(
            spec_first_payload(pkt1) + spec_rest_payload(pkt2) + spec_rest_payload(pkt3),
        ),
    ensures
        ({
            let (s1, o1) = spec_step(s0, pkt1);
            let (s2, o2) = spec_step(s1, pkt2);
            let (s3, o3) = spec_step(s2, pkt3);
            o3 == OutcomeModel::Reset && s3 is Idle
        }),
{
}

/// A video packet that breaks the run in flight — wrong sequence number,
/// wrong frame identifier, or a first-packet pattern while already
/// assembling — discards the partial frame: no completed frame is emitted and
/// the reassembler returns to idle, so the next clean first packet starts
/// fresh.
pub proof fn lemma_violation_resets(s: AsmModel, pkt: Seq<u8>)
    requires
        s is Assembling,
        pkt.len() >= HEADER_LEN,
        spec_is_video(spec_header(pkt)),
        is_first_shape(spec_header(pkt)) || ((is_middle_shape(spec_header(pkt)) || is_last_shape(
            spec_header(pkt),
        )) && !continues(s, spec_header(pkt))),
    ensures
        spec_step(s, pkt) == (AsmModel::Idle, OutcomeModel::Reset),
{
}

/// Recovery after a gap: a packet that breaks the run (a lost middle packet,
/// say, so the last packet's sequence number is not the expected one) yields
/// a reset and never a frame — and because the state is cleared, a
/// subsequent clean first/middle/last triple still assembles its frame
/// exactly.
pub proof fn lemma_gap_then_clean_triple_recovers(
    s: AsmModel,
    gap_pkt: Seq<u8>,
    pkt1: Seq<u8>,
    pkt2: Seq<u8>,
    pkt3: Seq<u8>,
)
    requires
        s is Assembling,
        gap_pkt.len() >= HEADER_LEN,
        spec_is_video(spec_header(gap_pkt)),
        (is_middle_shape(spec_header(gap_pkt)) || is_last_shape(spec_header(gap_pkt))) && !continues(
            s,
            spec_header(gap_pkt),
        ),
        pkt1.len() >= HEADER_LEN,
        pkt2.len() >= HEADER_LEN,
        pkt3.len() >= HEADER_LEN,
        is_first_shape(spec_header(pkt1)),
        is_middle_shape(spec_header(pkt2)),
        is_last_shape(spec_header(pkt3)),
        spec_header(pkt2).sequence == seq_after(spec_header(pkt1).sequence),
        spec_header(pkt3).sequence == seq_after(spec_header(pkt2).sequence),
        spec_header(pkt2).frame_id == spec_header(pkt1).frame_id,
        spec_header(pkt3).frame_id == spec_header(pkt1).frame_id,
        spec_starts_with_soi(
            spec_first_payload(pkt1) + spec_rest_payload(pkt2) + spec_rest_payload(pkt3),
        ),
    ensures
        spec_step(s, gap_pkt).1 == OutcomeModel::Reset,
        ({
            let s0 = spec_step(s, gap_pkt).0;
            let (s1, o1) = spec_step(s0, pkt1);
            let (s2, o2) = spec_step(s1, pkt2);
            let (s3, o3) = spec_step(s2, pkt3);
            o3 == OutcomeModel::FrameComplete(
                spec_first_payload(pkt1) + spec_rest_payload(pkt2) + spec_rest_payload(pkt3),
            ) && s3 is Idle
        }),
{
    lemma_violation_resets(s, gap_pkt);
    lemma_clean_triple_assembles(spec_step(s, gap_pkt).0, pkt1, pkt2, pkt3);
}

/// While assembling, the buffer only ever grows by the payload of a packet
/// that continues the run exactly: same frame identifier, sequence number one
/// greater than the last accepted packet's. Any other packet ends the
/// assembly one way or another.
pub proof fn lemma_buffer_grows_only_in_sequence(s: AsmModel, pkt: Seq<u8>)
    requires
        s is Assembling,
    ensures
        ({
            let (s2, o) = spec_step(s, pkt);
            s2 is Assembling ==> (s2 == s || (continues(s, spec_header(pkt)) && s2->buf == s->buf
                + spec_rest_payload(pkt)))
        }),
{
}

/// Append `src[from..]` to `dst`.
fn append_range(dst: &mut Vec<u8>, src: &[u8], from: usize)
    requires
        from <= src@.len(),
    ensures
        final(dst)@ == old(dst)@ + src@.subrange(from as int, src@.len() as int),
{
    let mut i: usize = from;
    while i < src.len()
        invariant
            from <= i <= src@.len(),
            dst@ == old(dst)@ + src@.subrange(from as int, i as int),
        decreases src@.len() - i,
    {
        dst.push(src[i]);
        i = i + 1;
        assert(dst@ =~= old(dst)@ + src@.subrange(from as int, i as int));
    }
    assert(dst@ =~= old(dst)@ + src@.subrange(from as int, src@.len() as int));
}

} // verus!
