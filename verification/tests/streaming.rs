use olympus_air::reassembler::{AssemblyOutcome, FrameAssembly};
use olympus_air::rtp::{ext_words, parse_header};
use olympus_air::sink::{DeliveryPlan, FrameSink};
use olympus_air::stats::StreamStats;
use olympus_air::worker::handle_datagram;

/// Build a video packet: version 2, payload type 96, with the given flags,
/// sequence number, frame id, extension words and payload.
fn packet(
    extension: bool,
    marker: bool,
    seq: u16,
    frame: u32,
    ext_len_words: u16,
    payload: &[u8],
) -> Vec<u8> {
    let mut b0 = 2u8 << 6;
    if extension {
        b0 |= 0x10;
    }
    let mut b1 = 96u8;
    if marker {
        b1 |= 0x80;
    }
    let mut pkt = vec![
        b0,
        b1,
        (seq >> 8) as u8,
        (seq & 0xff) as u8,
        (frame >> 24) as u8,
        (frame >> 16) as u8,
        (frame >> 8) as u8,
        (frame & 0xff) as u8,
        0,
        0,
        0,
        0,
    ];
    if extension {
        pkt.push(0);
        pkt.push(0);
        pkt.push((ext_len_words >> 8) as u8);
        pkt.push((ext_len_words & 0xff) as u8);
        for _ in 0..(ext_len_words as usize * 4) {
            pkt.push(0);
        }
    }
    pkt.extend_from_slice(payload);
    pkt
}

fn first_packet(seq: u16, frame: u32, payload: &[u8]) -> Vec<u8> {
    packet(true, false, seq, frame, 0, payload)
}

fn middle_packet(seq: u16, frame: u32, payload: &[u8]) -> Vec<u8> {
    packet(false, false, seq, frame, 0, payload)
}

fn last_packet(seq: u16, frame: u32, payload: &[u8]) -> Vec<u8> {
    packet(false, true, seq, frame, 0, payload)
}

#[test]
fn parse_header_decodes_fields() {
    let pkt = first_packet(100, 7, &[1, 2, 3]);
    let h = parse_header(&pkt).unwrap();
    assert_eq!(h.version, 2);
    assert!(!h.padding);
    assert!(h.extension);
    assert_eq!(h.csrc_count, 0);
    assert!(!h.marker);
    assert_eq!(h.payload_type, 96);
    assert_eq!(h.sequence, 100);
    assert_eq!(h.frame_id, 7);
    assert_eq!(ext_words(&pkt), 0);
}

#[test]
fn parse_header_rejects_short_packets() {
    assert!(parse_header(&[0x80, 96, 0, 0, 0, 0, 0]).is_none());
}

#[test]
fn happy_path_assembles_one_frame() {
    let mut assembly = FrameAssembly::new();
    let b1 = [0xff, 0xd8, 10, 11];
    let b2 = [20, 21, 22];
    let b3 = [30, 31];
    match assembly.classify_and_accumulate(&first_packet(100, 7, &b1)) {
        AssemblyOutcome::Continue => {}
        _ => panic!("first packet must continue"),
    }
    match assembly.classify_and_accumulate(&middle_packet(101, 7, &b2)) {
        AssemblyOutcome::Continue => {}
        _ => panic!("middle packet must continue"),
    }
    match assembly.classify_and_accumulate(&last_packet(102, 7, &b3)) {
        AssemblyOutcome::FrameComplete(frame) => {
            assert_eq!(frame, vec![0xff, 0xd8, 10, 11, 20, 21, 22, 30, 31]);
        }
        _ => panic!("last packet must complete the frame"),
    }
}

#[test]
fn sequence_gap_resets_then_recovers() {
    let mut assembly = FrameAssembly::new();
    let b1 = [0xff, 0xd8, 1];
    match assembly.classify_and_accumulate(&first_packet(100, 7, &b1)) {
        AssemblyOutcome::Continue => {}
        _ => panic!("first packet must continue"),
    }
    // The middle packet is lost; the last packet arrives with seq 102 while
    // 101 was expected.
    match assembly.classify_and_accumulate(&last_packet(102, 7, &[9])) {
        AssemblyOutcome::Reset => {}
        _ => panic!("a gap must reset"),
    }
    // A subsequent clean triple still assembles.
    let b2 = [2, 3];
    let b3 = [4];
    assert!(matches!(
        assembly.classify_and_accumulate(&first_packet(200, 8, &b1)),
        AssemblyOutcome::Continue
    ));
    assert!(matches!(
        assembly.classify_and_accumulate(&middle_packet(201, 8, &b2)),
        AssemblyOutcome::Continue
    ));
    match assembly.classify_and_accumulate(&last_packet(202, 8, &b3)) {
        AssemblyOutcome::FrameComplete(frame) => {
            assert_eq!(frame, vec![0xff, 0xd8, 1, 2, 3, 4]);
        }
        _ => panic!("clean triple after reset must complete"),
    }
}

#[test]
fn missing_soi_resets_instead_of_completing() {
    let mut assembly = FrameAssembly::new();
    assert!(matches!(
        assembly.classify_and_accumulate(&first_packet(10, 3, &[1, 2])),
        AssemblyOutcome::Continue
    ));
    assert!(matches!(
        assembly.classify_and_accumulate(&middle_packet(11, 3, &[3])),
        AssemblyOutcome::Continue
    ));
    assert!(matches!(
        assembly.classify_and_accumulate(&last_packet(12, 3, &[4])),
        AssemblyOutcome::Reset
    ));
}

#[test]
fn reentrant_first_packet_discards_and_next_first_starts_fresh() {
    let mut assembly = FrameAssembly::new();
    assert!(matches!(
        assembly.classify_and_accumulate(&first_packet(100, 7, &[0xff, 0xd8, 1])),
        AssemblyOutcome::Continue
    ));
    // A new first packet arrives while already assembling: the in-flight
    // buffer is discarded.
    assert!(matches!(
        assembly.classify_and_accumulate(&first_packet(50, 9, &[0xff, 0xd8, 2])),
        AssemblyOutcome::Reset
    ));
    // The next first packet opens a fresh assembly for the new frame id.
    assert!(matches!(
        assembly.classify_and_accumulate(&first_packet(50, 9, &[0xff, 0xd8, 2])),
        AssemblyOutcome::Continue
    ));
    match assembly.classify_and_accumulate(&last_packet(51, 9, &[3])) {
        AssemblyOutcome::FrameComplete(frame) => {
            assert_eq!(frame, vec![0xff, 0xd8, 2, 3]);
        }
        _ => panic!("fresh assembly must complete"),
    }
}

#[test]
fn mismatched_frame_id_resets() {
    let mut assembly = FrameAssembly::new();
    assert!(matches!(
        assembly.classify_and_accumulate(&first_packet(100, 7, &[0xff, 0xd8])),
        AssemblyOutcome::Continue
    ));
    assert!(matches!(
        assembly.classify_and_accumulate(&middle_packet(101, 8, &[1])),
        AssemblyOutcome::Reset
    ));
}

#[test]
fn non_video_packets_are_ignored_mid_frame() {
    let mut assembly = FrameAssembly::new();
    assert!(matches!(
        assembly.classify_and_accumulate(&first_packet(100, 7, &[0xff, 0xd8])),
        AssemblyOutcome::Continue
    ));
    // Wrong version: not part of the video stream, assembly unaffected.
    let mut alien = middle_packet(101, 7, &[1]);
    alien[0] = 0x40; // version 1
    assert!(matches!(
        assembly.classify_and_accumulate(&alien),
        AssemblyOutcome::Continue
    ));
    // Wrong payload type: also ignored.
    let mut alien2 = middle_packet(101, 7, &[1]);
    alien2[1] = 97;
    assert!(matches!(
        assembly.classify_and_accumulate(&alien2),
        AssemblyOutcome::Continue
    ));
    // Too short to be a video packet: ignored.
    assert!(matches!(
        assembly.classify_and_accumulate(&[0x80, 96, 0]),
        AssemblyOutcome::Continue
    ));
    // The frame still completes.
    match assembly.classify_and_accumulate(&last_packet(101, 7, &[5])) {
        AssemblyOutcome::FrameComplete(frame) => {
            assert_eq!(frame, vec![0xff, 0xd8, 5]);
        }
        _ => panic!("ignored packets must not break assembly"),
    }
}

#[test]
fn extension_words_move_the_payload_offset() {
    let mut assembly = FrameAssembly::new();
    // One extension word: offset 12 + 4 + 4; the builder inserts the four
    // extension bytes, so the payload still lands intact.
    let pkt = packet(true, false, 5, 1, 1, &[0xff, 0xd8, 42]);
    assert_eq!(ext_words(&pkt), 1);
    assert!(matches!(
        assembly.classify_and_accumulate(&pkt),
        AssemblyOutcome::Continue
    ));
    match assembly.classify_and_accumulate(&last_packet(6, 1, &[43])) {
        AssemblyOutcome::FrameComplete(frame) => {
            assert_eq!(frame, vec![0xff, 0xd8, 42, 43]);
        }
        _ => panic!("extension-bearing first packet must assemble"),
    }
}

#[test]
fn sequence_number_wraps_at_the_boundary() {
    let mut assembly = FrameAssembly::new();
    assert!(matches!(
        assembly.classify_and_accumulate(&first_packet(65535, 7, &[0xff, 0xd8])),
        AssemblyOutcome::Continue
    ));
    match assembly.classify_and_accumulate(&last_packet(0, 7, &[1])) {
        AssemblyOutcome::FrameComplete(frame) => {
            assert_eq!(frame, vec![0xff, 0xd8, 1]);
        }
        _ => panic!("the sequence must wrap to zero"),
    }
}

#[test]
fn handle_datagram_counts_and_plans() {
    let mut assembly = FrameAssembly::new();
    let mut sink = FrameSink::new(0, true);
    let mut stats = StreamStats::new(0);
    let out = handle_datagram(&mut assembly, &mut sink, &mut stats, 100, &first_packet(1, 2, &[0xff, 0xd8]));
    assert!(out.frame.is_none());
    assert!(out.plan.is_none());
    assert_eq!(stats.packets_received, 1);
    assert_eq!(stats.jpeg_frames, 0);
    let out = handle_datagram(&mut assembly, &mut sink, &mut stats, 200, &last_packet(2, 2, &[7]));
    assert_eq!(out.frame.as_deref(), Some(&[0xff, 0xd8, 7][..]));
    assert_eq!(out.plan, Some(DeliveryPlan::Write { sleep_ms: 0, reset_conduit: false }));
    assert_eq!(stats.packets_received, 2);
    assert_eq!(stats.jpeg_frames, 1);
    assert_eq!(stats.last_frame_size, 3);
    assert_eq!(stats.last_frame_time_ms, 200);
}
