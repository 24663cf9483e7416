use olympus_air::supervisor::{
    conduit_path, ffplay_args, mplayer_args, next_candidate, player_program, should_launch,
    terminate_plan, PlayerKind, TerminatePlan, STRAY_CLEANUP_WAIT_MS, TERMINATE_GRACE_MS,
};

#[test]
fn candidates_are_tried_in_order_then_spawn_fails() {
    assert_eq!(next_candidate(0), Some(PlayerKind::MPlayer));
    assert_eq!(next_candidate(1), Some(PlayerKind::FFplay));
    assert_eq!(next_candidate(2), None);
    assert_eq!(next_candidate(7), None);
    assert!(should_launch(true));
    assert!(!should_launch(false));
}

#[test]
fn player_programs_and_arguments() {
    assert_eq!(player_program(PlayerKind::MPlayer), "mplayer");
    assert_eq!(player_program(PlayerKind::FFplay), "ffplay");
    assert_eq!(conduit_path(), "olympus_stream.pipe");
    let m = mplayer_args();
    assert_eq!(
        m,
        vec![
            "-demuxer",
            "lavf",
            "-lavfdopts",
            "format=mjpeg",
            "-really-quiet",
            "-loop",
            "0",
            "-v",
            "olympus_stream.pipe",
        ]
    );
    let f = ffplay_args();
    assert_eq!(
        f,
        vec![
            "-f",
            "mjpeg",
            "-i",
            "olympus_stream.pipe",
            "-loglevel",
            "warning",
            "-x",
            "800",
            "-y",
            "600",
        ]
    );
}

#[test]
fn termination_escalates_only_when_still_alive() {
    assert_eq!(
        terminate_plan(false),
        TerminatePlan {
            send_graceful: true,
            grace_wait_ms: TERMINATE_GRACE_MS,
            force_kill: false,
            cleanup_strays: true,
        }
    );
    let escalated = terminate_plan(true);
    assert!(escalated.force_kill);
    assert!(escalated.cleanup_strays);
    assert_eq!(escalated.grace_wait_ms, 300);
    assert_eq!(STRAY_CLEANUP_WAIT_MS, 200);
}
