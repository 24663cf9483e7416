use olympus_air::session::{
    generate_stream_url, heartbeat_due, recording_file_name, stall_detected, stream_banner,
    stream_health, SessionStatus, StartError, StreamBanner, StreamHealth, StreamSession,
    DEFAULT_UDP_PORT, FALLBACK_UDP_PORT,
};
use olympus_air::sink::{DeliveryPlan, FrameSink, RecoveryPlan, PACE_INTERVAL_MS};
use olympus_air::stats::StreamStats;

#[test]
fn pacing_books_writes_a_full_interval_apart() {
    let mut sink = FrameSink::new(0, true);
    // A frame 10 ms after the last write: sleep the remaining 23 ms.
    match sink.plan_delivery(10) {
        DeliveryPlan::Write { sleep_ms, reset_conduit } => {
            assert_eq!(sleep_ms, 23);
            assert!(!reset_conduit);
        }
        DeliveryPlan::Shed => panic!("first frame must be written"),
    }
    assert_eq!(sink.last_write_ms, 33);
    // A frame long after the last write sleeps nothing.
    let mut relaxed = FrameSink::new(0, true);
    relaxed.record_write_completed(100);
    match relaxed.plan_delivery(500) {
        DeliveryPlan::Write { sleep_ms, .. } => assert_eq!(sleep_ms, 0),
        DeliveryPlan::Shed => panic!("a slow frame must be written"),
    }
}

#[test]
fn consecutive_writes_keep_the_pacing_interval() {
    let mut sink = FrameSink::new(0, true);
    let mut last = sink.last_write_ms;
    let mut now = 5;
    for _ in 0..10 {
        match sink.plan_delivery(now) {
            DeliveryPlan::Write { sleep_ms, .. } => {
                let write_at = now + sleep_ms;
                assert!(write_at >= last + PACE_INTERVAL_MS);
                last = sink.last_write_ms;
                now = write_at + 25; // next frame arrives 25 ms after the write
            }
            DeliveryPlan::Shed => {
                now += 25;
            }
        }
    }
}

#[test]
fn fast_frames_shed_every_other_one() {
    let mut sink = FrameSink::new(0, true);
    let mut written = 0;
    let mut now = 0;
    // A sustained burst: each frame completes 5 ms after the previous write.
    for _ in 0..20 {
        match sink.plan_delivery(now) {
            DeliveryPlan::Write { sleep_ms, .. } => {
                written += 1;
                now = now + sleep_ms; // the write happens here
            }
            DeliveryPlan::Shed => {}
        }
        now += 5;
    }
    assert!(2 * written <= 20 + 1);
    assert!(written >= 1);
}

#[test]
fn a_frame_right_after_a_write_is_shed() {
    let mut sink = FrameSink::new(0, true);
    match sink.plan_delivery(40) {
        DeliveryPlan::Write { .. } => {}
        DeliveryPlan::Shed => panic!("an even counter never sheds"),
    }
    // The write was booked at 40; 10 ms later the counter is odd: shed.
    assert!(matches!(sink.plan_delivery(50), DeliveryPlan::Shed));
    // 20 ms after the write the threshold is past: written again.
    assert!(matches!(
        sink.plan_delivery(60),
        DeliveryPlan::Write { .. }
    ));
}

#[test]
fn conduit_reset_is_scheduled_after_its_interval() {
    let mut sink = FrameSink::new(0, true);
    match sink.plan_delivery(30_001) {
        DeliveryPlan::Write { reset_conduit, .. } => assert!(reset_conduit),
        DeliveryPlan::Shed => panic!("must write"),
    }
    assert_eq!(sink.last_reset_ms, 30_001);
    let mut fresh = FrameSink::new(0, true);
    match fresh.plan_delivery(29_000) {
        DeliveryPlan::Write { reset_conduit, .. } => assert!(!reset_conduit),
        DeliveryPlan::Shed => panic!("must write"),
    }
}

#[test]
fn broken_conduit_reopens_after_a_delay() {
    let mut sink = FrameSink::new(0, true);
    assert_eq!(
        sink.handle_write_error(true),
        RecoveryPlan::Reopen { delay_ms: 100 }
    );
    assert!(!sink.conduit_open);
    sink.record_reset(500, true);
    assert!(sink.conduit_open);
    assert_eq!(sink.last_reset_ms, 500);
    assert_eq!(sink.handle_write_error(false), RecoveryPlan::CarryOn);
    assert!(sink.conduit_open);
}

#[test]
fn stop_is_idempotent_and_leaves_no_worker() {
    let mut session = StreamSession::new();
    // Stopping a session that never started: nothing to tear down.
    let plan = session.stop();
    assert!(!plan.join_worker);
    assert_eq!(plan.terminate_player, None);
    assert!(!plan.remove_conduit);
    assert!(!session.running);
    assert!(!session.worker_live);
    // A started session stops once with a full plan, and a second stop finds
    // nothing.
    let mut session = StreamSession::new();
    session.begin_start();
    assert_eq!(session.apply_bind_outcomes(true, true), Ok(DEFAULT_UDP_PORT));
    assert_eq!(session.apply_player_outcome(Some(4242)), Ok(4242));
    session.worker_started();
    assert!(session.running && session.worker_live && session.is_playing);
    let plan = session.stop();
    assert!(plan.join_worker);
    assert_eq!(plan.terminate_player, Some(4242));
    assert!(plan.remove_conduit);
    assert!(!session.running && !session.worker_live);
    let again = session.stop();
    assert!(!again.join_worker);
    assert_eq!(again.terminate_player, None);
    assert!(!again.remove_conduit);
    assert!(!session.running && !session.worker_live);
}

#[test]
fn bind_falls_back_to_the_documented_port() {
    let mut session = StreamSession::new();
    session.begin_start();
    assert_eq!(session.apply_bind_outcomes(false, true), Ok(FALLBACK_UDP_PORT));
    assert_eq!(session.udp_port, FALLBACK_UDP_PORT);
    assert_eq!(session.status, SessionStatus::Starting);
}

#[test]
fn bind_failure_on_both_ports_fails_the_start_cleanly() {
    let mut session = StreamSession::new();
    session.begin_start();
    assert_eq!(
        session.apply_bind_outcomes(false, false),
        Err(StartError::BindFailed)
    );
    assert_eq!(session.status, SessionStatus::Stopped);
    assert!(!session.running && !session.worker_live && !session.is_playing);
}

#[test]
fn player_failure_fails_the_start_cleanly() {
    let mut session = StreamSession::new();
    session.begin_start();
    assert_eq!(
        session.apply_player_outcome(None),
        Err(StartError::PlayerFailed)
    );
    assert_eq!(session.status, SessionStatus::Stopped);
    assert!(!session.running && !session.worker_live);
}

#[test]
fn recording_toggle() {
    let mut session = StreamSession::new();
    assert!(!session.is_recording);
    session.start_recording();
    assert!(session.is_recording);
    session.stop_recording();
    assert!(!session.is_recording);
}

#[test]
fn statistics_count_monotonically() {
    let mut stats = StreamStats::new(0);
    stats.record_packet();
    stats.record_packet();
    assert_eq!(stats.packets_received, 2);
    stats.record_frame(700, 4096);
    assert_eq!(stats.jpeg_frames, 1);
    assert_eq!(stats.interval_frames, 1);
    assert_eq!(stats.last_frame_time_ms, 700);
    assert_eq!(stats.last_frame_size, 4096);
    assert_eq!(stats.snapshot(), (2, 1, 4096));
    stats.reset_interval();
    assert_eq!(stats.interval_frames, 0);
    assert_eq!(stats.jpeg_frames, 1);
}

#[test]
fn health_and_banner_thresholds() {
    assert_eq!(stream_health(0), StreamHealth::Good);
    assert_eq!(stream_health(1), StreamHealth::Degraded);
    assert_eq!(stream_health(4), StreamHealth::Degraded);
    assert_eq!(stream_health(5), StreamHealth::Poor);
    assert_eq!(stream_banner(6, 100), StreamBanner::Stalled);
    assert_eq!(stream_banner(2, 0), StreamBanner::Waiting);
    assert_eq!(stream_banner(2, 3), StreamBanner::Active);
}

#[test]
fn stall_and_heartbeat_windows() {
    assert!(!stall_detected(10_000, 0));
    assert!(stall_detected(10_001, 0));
    assert!(!heartbeat_due(5_000, 0));
    assert!(heartbeat_due(5_001, 0));
}

#[test]
fn recording_file_names_encode_the_timestamp() {
    assert_eq!(recording_file_name(0), "olympus_recording_0.mjpeg");
    assert_eq!(
        recording_file_name(1712345678),
        "olympus_recording_1712345678.mjpeg"
    );
}

#[test]
fn stream_urls_take_the_host_and_port() {
    assert_eq!(
        generate_stream_url("192.168.0.10:8080", 65001),
        "olympus-udp://192.168.0.10:65001"
    );
    assert_eq!(
        generate_stream_url("192.168.0.10", 65002),
        "olympus-udp://192.168.0.10:65002"
    );
}
