//! Lifecycle of one live-view streaming session.
//!
//! A session owns (in the running process) the UDP socket, the worker thread
//! and the player; here it is the decision core: which port to bind and the
//! one documented fallback, what starting may leave behind when it fails
//! (nothing), and what stopping must tear down. Stopping is idempotent and
//! never leaves a worker running.

use vstd::prelude::*;

verus! {

/// Default local UDP port the camera is asked to stream to.
pub const DEFAULT_UDP_PORT: u16 = 65001;

/// The one documented fallback port, used when the default is occupied.
pub const FALLBACK_UDP_PORT: u16 = 65002;

/// The worker observes a cleared running flag within one receive timeout.
pub const RECEIVE_TIMEOUT_MS: u64 = 500;

/// A stalled stream is reported after this long without a packet.
pub const STALL_WINDOW_MS: u64 = 10000;

/// Throughput is summarized (and the interval frame count reset) this often.
pub const HEARTBEAT_INTERVAL_MS: u64 = 5000;

/// Lifecycle of the session.
#[derive(Clone, Copy, PartialEq, Eq, Structural, Debug)]
pub enum SessionStatus {
    Stopped,
    Starting,
    Running,
    Stopping,
}

/// Streaming modes for video.
#[derive(Clone, Copy, PartialEq, Eq, Structural, Debug)]
pub enum StreamingMode {
    /// The camera's custom UDP protocol (only supported mode).
    OlympusUDP,
}

/// Why a session failed to start.
#[derive(Clone, Copy, PartialEq, Eq, Structural, Debug)]
pub enum StartError {
    /// Neither the default port nor the fallback could be bound.
    BindFailed,
    /// No candidate player process could be launched.
    PlayerFailed,
}

/// What stopping a session obliges the surrounding process to tear down.
#[derive(Clone, Copy, PartialEq, Eq, Structural, Debug)]
pub struct StopPlan {
    /// Join the worker thread (with a bounded wait).
    pub join_worker: bool,
    /// Terminate this player process, then best-effort stray instances.
    pub terminate_player: Option<u32>,
    /// Remove the conduit the player was reading from.
    pub remove_conduit: bool,
}

/// Decision state of one streaming session.
pub struct StreamSession {
    /// Lifecycle state.
    pub status: SessionStatus,
    /// The local UDP port, mutable on fallback.
    pub udp_port: u16,
    /// The shared running flag, as the controller last set it.
    pub running: bool,
    /// Whether a worker thread is attached to the session.
    pub worker_live: bool,
    /// Whether the stream is currently playing.
    pub is_playing: bool,
    /// Whether completed frames are also appended to the recording file.
    pub is_recording: bool,
    /// Process id of the external player, when one was launched.
    pub player_pid: Option<u32>,
}

/// The state every stop call leaves behind: stopped, nothing running,
/// nothing attached.
pub open spec fn spec_stopped(s: StreamSession) -> StreamSession {
    StreamSession {
        status: SessionStatus::Stopped,
        running: false,
        worker_live: false,
        is_playing: false,
        player_pid: None,
        ..s
    }
}

impl StreamSession {
    /// A new session: stopped, on the default port, not recording.
    pub fn new() -> (r: StreamSession)
        ensures
            r == (StreamSession {
                status: SessionStatus::Stopped,
                udp_port: DEFAULT_UDP_PORT,
                running: false,
                worker_live: false,
                is_playing: false,
                is_recording: false,
                player_pid: None,
            }),
    {
        StreamSession {
            status: SessionStatus::Stopped,
            udp_port: DEFAULT_UDP_PORT,
            running: false,
            worker_live: false,
            is_playing: false,
            is_recording: false,
            player_pid: None,
        }
    }

    /// Begin starting: nothing runs yet.
    pub fn begin_start(&mut self)
        requires
            old(self).status is Stopped,
        ensures
            *final(self) == (StreamSession { status: SessionStatus::Starting, ..*old(self) }),
    {
        self.status = SessionStatus::Starting;
    }

    /// Apply the outcome of binding the session's port and, if that failed,
    /// the documented fallback port. On the fallback the session's port
    /// changes and everything else proceeds identically; when both fail the
    /// start fails and no partial state is left running.
    pub fn apply_bind_outcomes(&mut self, primary_bound: bool, fallback_bound: bool) -> (r: Result<
        u16,
        StartError,
    >)
        requires
            old(self).status is Starting,
        ensures
            primary_bound ==> r == Ok::<u16, StartError>(old(self).udp_port) && *final(self) == *old(
                self,
            ),
            !primary_bound && fallback_bound ==> r == Ok::<u16, StartError>(FALLBACK_UDP_PORT)
                && *final(self) == (StreamSession { udp_port: FALLBACK_UDP_PORT, ..*old(self) }),
            !primary_bound && !fallback_bound ==> r == Err::<u16, StartError>(
                StartError::BindFailed,
            ) && *final(self) == spec_stopped(*old(self)),
    {
        if primary_bound {
            Ok(self.udp_port)
        } else if fallback_bound {
            self.udp_port = FALLBACK_UDP_PORT;
            Ok(FALLBACK_UDP_PORT)
        } else {
            self.status = SessionStatus::Stopped;
            self.running = false;
            self.worker_live = false;
            self.is_playing = false;
            self.player_pid = None;
            Err(StartError::BindFailed)
        }
    }

    /// Apply the outcome of launching the external player. Failure fails the
    /// start, leaving no partial state running.
    pub fn apply_player_outcome(&mut self, pid: Option<u32>) -> (r: Result<u32, StartError>)
        requires
            old(self).status is Starting,
        ensures
            pid matches Some(p) ==> r == Ok::<u32, StartError>(p) && *final(self) == (StreamSession {
                player_pid: pid,
                ..*old(self)
            }),
            pid is None ==> r == Err::<u32, StartError>(StartError::PlayerFailed) && *final(self)
                == spec_stopped(*old(self)),
    {
        match pid {
            Some(p) => {
                self.player_pid = Some(p);
                Ok(p)
            },
            None => {
                self.status = SessionStatus::Stopped;
                self.running = false;
                self.worker_live = false;
                self.is_playing = false;
                self.player_pid = None;
                Err(StartError::PlayerFailed)
            },
        }
    }

    /// The worker thread is up: the session runs and plays.
    pub fn worker_started(&mut self)
        requires
            old(self).status is Starting,
        ensures
            *final(self) == (StreamSession {
                status: SessionStatus::Running,
                running: true,
                worker_live: true,
                is_playing: true,
                ..*old(self)
            }),
    {
        self.status = SessionStatus::Running;
        self.running = true;
        self.worker_live = true;
        self.is_playing = true;
    }

    /// Stop the session: clear the running flag, detach the worker and the
    /// player, stop playing. The returned plan names exactly what the
    /// surrounding process still has to tear down — for a session that never
    /// started there is nothing, and a second stop is a no-op.
    pub fn stop(&mut self) -> (plan: StopPlan)
        ensures
            *final(self) == spec_stopped(*old(self)),
            plan == (StopPlan {
                join_worker: old(self).worker_live,
                terminate_player: old(self).player_pid,
                remove_conduit: old(self).worker_live || old(self).player_pid is Some,
            }),
            !final(self).running && !final(self).worker_live,
    {
        let plan = StopPlan {
            join_worker: self.worker_live,
            terminate_player: self.player_pid,
            remove_conduit: self.worker_live || self.player_pid.is_some(),
        };
        self.status = SessionStatus::Stopped;
        self.running = false;
        self.worker_live = false;
        self.is_playing = false;
        self.player_pid = None;
        plan
    }

    /// Begin recording: completed frames will also be appended to a file.
    pub fn start_recording(&mut self)
        ensures
            *final(self) == (StreamSession { is_recording: true, ..*old(self) }),
    {
        self.is_recording = true;
    }

    /// Stop recording.
    pub fn stop_recording(&mut self)
        ensures
            *final(self) == (StreamSession { is_recording: false, ..*old(self) }),
    {
        self.is_recording = false;
    }
}

/// Stopping is idempotent: a second stop finds nothing to tear down and
/// leaves the session exactly as the first left it, and no stop ever leaves
/// a running worker behind.
pub proof fn lemma_stop_idempotent(s: StreamSession)
    ensures
        spec_stopped(spec_stopped(s)) == spec_stopped(s),
        !spec_stopped(s).running && !spec_stopped(s).worker_live,
        spec_stopped(s).player_pid is None,
{
}

/// Health of the stream, from the time since the last frame.
#[derive(Clone, Copy, PartialEq, Eq, Structural, Debug)]
pub enum StreamHealth {
    /// A frame arrived within the last second.
    Good,
    /// The last frame is one to five seconds old.
    Degraded,
    /// No frame for five seconds or more: poor, possibly stalled.
    Poor,
}

/// Judge the stream's health from the seconds since the last frame.
pub fn stream_health(seconds_since_last_frame: u64) -> (r: StreamHealth)
    ensures
        seconds_since_last_frame < 1 ==> r == StreamHealth::Good,
        1 <= seconds_since_last_frame < 5 ==> r == StreamHealth::Degraded,
        seconds_since_last_frame >= 5 ==> r == StreamHealth::Poor,
{
    if seconds_since_last_frame < 1 {
        StreamHealth::Good
    } else if seconds_since_last_frame < 5 {
        StreamHealth::Degraded
    } else {
        StreamHealth::Poor
    }
}

/// What the status bar reports about the stream.
#[derive(Clone, Copy, PartialEq, Eq, Structural, Debug)]
pub enum StreamBanner {
    /// The stream may be stalled: suggest a restart or diagnostics.
    Stalled,
    /// No frame ever arrived: still waiting for video data.
    Waiting,
    /// Frames are flowing.
    Active,
}

/// Pick the status bar's report: a multi-second gap means stalled, no frames
/// at all means waiting, anything else means active.
pub fn stream_banner(seconds_since_last_frame: u64, frames: u64) -> (r: StreamBanner)
    ensures
        seconds_since_last_frame > 5 ==> r == StreamBanner::Stalled,
        seconds_since_last_frame <= 5 && frames == 0 ==> r == StreamBanner::Waiting,
        seconds_since_last_frame <= 5 && frames > 0 ==> r == StreamBanner::Active,
{
    if seconds_since_last_frame > 5 {
        StreamBanner::Stalled
    } else if frames == 0 {
        StreamBanner::Waiting
    } else {
        StreamBanner::Active
    }
}

/// The file a recording is appended to, named for the capture timestamp:
/// raw concatenated frames, no container.
pub fn recording_file_name(timestamp_secs: u64) -> (r: String)
    ensures
        r@ == "olympus_recording_"@ + crate::text::spec_decimal(timestamp_secs as int)
            + ".mjpeg"@,
{
    let mut s = String::from_str("olympus_recording_");
    let digits = crate::text::decimal_string(timestamp_secs);
    s.append(digits.as_str());
    s.append(".mjpeg");
    s
}

/// The display URL of a stream: the host part of the camera's address (up to
/// its first colon) and the local UDP port, under the scheme of the camera's
/// custom transport.
pub fn generate_stream_url(stream_url: &str, udp_port: u16) -> (r: String)
    ensures
        ({
            let host = crate::text::spec_colon_prefix(stream_url@);
            r@ == "olympus-udp://"@ + host + ":"@ + crate::text::spec_decimal(udp_port as int)
        }),
{
    let mut s = String::from_str("olympus-udp://");
    let host = crate::text::prefix_before_colon(stream_url);
    proof {
        crate::text::lemma_colon_prefix_unique(stream_url@, host@);
    }
    s.append(host.as_str());
    s.append(":");
    let digits = crate::text::decimal_string(udp_port as u64);
    s.append(digits.as_str());
    s
}

/// Whether the stream counts as stalled: no packet for the stall window.
pub fn stall_detected(now_ms: u64, last_activity_ms: u64) -> (r: bool)
    requires
        now_ms >= last_activity_ms,
    ensures
        r == (now_ms - last_activity_ms > STALL_WINDOW_MS),
{
    now_ms - last_activity_ms > STALL_WINDOW_MS
}

/// Whether a heartbeat summary is due.
pub fn heartbeat_due(now_ms: u64, last_heartbeat_ms: u64) -> (r: bool)
    requires
        now_ms >= last_heartbeat_ms,
    ensures
        r == (now_ms - last_heartbeat_ms > HEARTBEAT_INTERVAL_MS),
{
    now_ms - last_heartbeat_ms > HEARTBEAT_INTERVAL_MS
}

} // verus!
