//! Supervision of the external decoder process.
//!
//! Spawning tries an ordered list of candidate players; each candidate is
//! probed for availability and launched only when present; the first
//! successful launch wins and total failure fails the session start.
//! Termination is graceful first, then forced if the process outlives the
//! grace period, followed by a best-effort cleanup of stray instances that a
//! prior failed teardown may have left behind.

use vstd::prelude::*;

verus! {

/// Grace period between the graceful stop signal and the liveness check.
pub const TERMINATE_GRACE_MS: u64 = 300;

/// Wait between the graceful and the forced pass over stray instances.
pub const STRAY_CLEANUP_WAIT_MS: u64 = 200;

/// The external decoders this supervisor knows how to drive, in preference
/// order.
#[derive(Clone, Copy, PartialEq, Eq, Structural, Debug)]
pub enum PlayerKind {
    /// The primary candidate.
    MPlayer,
    /// The fallback candidate.
    FFplay,
}

/// How to wind a player process down, given whether it survived the grace
/// period after the graceful stop signal.
#[derive(Clone, Copy, PartialEq, Eq, Structural, Debug)]
pub struct TerminatePlan {
    /// Send the graceful stop signal first, always.
    pub send_graceful: bool,
    /// Wait this long before checking liveness.
    pub grace_wait_ms: u64,
    /// Escalate to a forced kill: the process was still alive.
    pub force_kill: bool,
    /// Best-effort terminate stray instances of the same executable
    /// system-wide; a prior failed teardown can leave orphans that would
    /// contend for the conduit.
    pub cleanup_strays: bool,
}

/// The candidate to try after `tried` candidates have failed: the primary
/// first, then the one fallback, then nothing — spawn fails with an
/// aggregate error.
pub fn next_candidate(tried: usize) -> (r: Option<PlayerKind>)
    ensures
        tried == 0 ==> r == Some(PlayerKind::MPlayer),
        tried == 1 ==> r == Some(PlayerKind::FFplay),
        tried >= 2 ==> r is None,
{
    if tried == 0 {
        Some(PlayerKind::MPlayer)
    } else if tried == 1 {
        Some(PlayerKind::FFplay)
    } else {
        None
    }
}

/// A candidate is launched only when the availability probe found it.
pub fn should_launch(probe_found: bool) -> (r: bool)
    ensures
        r == probe_found,
{
    probe_found
}

/// Decide the teardown steps once liveness after the grace period is known:
/// graceful signal, bounded wait, forced kill only if still alive, and the
/// stray cleanup in every case.
pub fn terminate_plan(alive_after_grace: bool) -> (p: TerminatePlan)
    ensures
        p == (TerminatePlan {
            send_graceful: true,
            grace_wait_ms: TERMINATE_GRACE_MS,
            force_kill: alive_after_grace,
            cleanup_strays: true,
        }),
{
    TerminatePlan {
        send_graceful: true,
        grace_wait_ms: TERMINATE_GRACE_MS,
        force_kill: alive_after_grace,
        cleanup_strays: true,
    }
}

/// The executable name of a candidate player.
pub fn player_program(kind: PlayerKind) -> (r: &'static str)
    ensures
        kind is MPlayer ==> r@ == "mplayer"@,
        kind is FFplay ==> r@ == "ffplay"@,
{
    match kind {
        PlayerKind::MPlayer => "mplayer",
        PlayerKind::FFplay => "ffplay",
    }
}

/// The conduit the player reads the MJPEG stream from.
pub fn conduit_path() -> (r: &'static str)
    ensures
        r@ == "olympus_stream.pipe"@,
{
    "olympus_stream.pipe"
}

/// The arguments the primary player is launched with: an MJPEG demuxer over
/// the conduit, looping, quiet on the console.
pub fn mplayer_args() -> (r: Vec<&'static str>)
    ensures
        r@.len() == 9,
        r@[0]@ == "-demuxer"@,
        r@[1]@ == "lavf"@,
        r@[2]@ == "-lavfdopts"@,
        r@[3]@ == "format=mjpeg"@,
        r@[4]@ == "-really-quiet"@,
        r@[5]@ == "-loop"@,
        r@[6]@ == "0"@,
        r@[7]@ == "-v"@,
        r@[8]@ == "olympus_stream.pipe"@,
{
    let mut v: Vec<&'static str> = Vec::new();
    v.push("-demuxer");
    v.push("lavf");
    v.push("-lavfdopts");
    v.push("format=mjpeg");
    v.push("-really-quiet");
    v.push("-loop");
    v.push("0");
    v.push("-v");
    v.push("olympus_stream.pipe");
    v
}

/// The arguments the fallback player is launched with: MJPEG input from the
/// conduit in a fixed-size window, warnings only.
pub fn ffplay_args() -> (r: Vec<&'static str>)
    ensures
        r@.len() == 10,
        r@[0]@ == "-f"@,
        r@[1]@ == "mjpeg"@,
        r@[2]@ == "-i"@,
        r@[3]@ == "olympus_stream.pipe"@,
        r@[4]@ == "-loglevel"@,
        r@[5]@ == "warning"@,
        r@[6]@ == "-x"@,
        r@[7]@ == "800"@,
        r@[8]@ == "-y"@,
        r@[9]@ == "600"@,
{
    let mut v: Vec<&'static str> = Vec::new();
    v.push("-f");
    v.push("mjpeg");
    v.push("-i");
    v.push("olympus_stream.pipe");
    v.push("-loglevel");
    v.push("warning");
    v.push("-x");
    v.push("800");
    v.push("-y");
    v.push("600");
    v
}

} // verus!
