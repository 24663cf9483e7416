//! The camera-control command sequences.
//!
//! The camera is commanded over HTTP by an external collaborator; this module
//! decides which endpoints to send, in what order, with what delays and
//! retries, and how each outcome advances or fails the operation. The
//! requests themselves are made by the surrounding process, which reports
//! each outcome back.

use vstd::prelude::*;
use vstd::string::StringExecFns;

use crate::text::spec_decimal;

verus! {

/// Delay between consecutive initialization commands.
pub const INIT_STEP_DELAY_MS: u64 = 300;

/// Wait after commanding the camera to start streaming.
pub const STREAM_WARMUP_MS: u64 = 1000;

/// How many times each connection step is attempted.
pub const CONNECT_ATTEMPTS: u32 = 3;

/// Errors of the camera-control channel, as the library reports them.
#[derive(Clone, Copy, PartialEq, Eq, Structural, Debug)]
pub enum CameraError {
    /// An initialization command failed; the camera is not ready.
    InitFailed,
    /// The command starting the live view failed.
    StartFailed,
    /// The command stopping the live view failed.
    StopFailed,
    /// The connection could not be verified by the final state check.
    VerifyFailed,
}

/// The initialization sequence for live-view streaming: query the connect
/// mode, switch to record mode, query the state, and stop any stream a
/// previous session left running.
pub fn init_steps() -> (r: Vec<&'static str>)
    ensures
        r@.len() == 4,
        r@[0]@ == "get_connectmode.cgi"@,
        r@[1]@ == "switch_cameramode.cgi?mode=rec"@,
        r@[2]@ == "get_state.cgi"@,
        r@[3]@ == "exec_takemisc.cgi?com=stopliveview"@,
{
    let mut v: Vec<&'static str> = Vec::new();
    v.push("get_connectmode.cgi");
    v.push("switch_cameramode.cgi?mode=rec");
    v.push("get_state.cgi");
    v.push("exec_takemisc.cgi?com=stopliveview");
    v
}

/// The command that starts the live view toward the given local UDP port.
pub fn start_live_view_command(udp_port: u16) -> (r: String)
    ensures
        r@ == "exec_takemisc.cgi?com=startliveview&port="@ + spec_decimal(udp_port as int),
{
    let mut s = String::from_str("exec_takemisc.cgi?com=startliveview&port=");
    let digits = crate::text::decimal_string(udp_port as u64);
    s.append(digits.as_str());
    s
}

/// The command that stops the live view.
pub fn stop_live_view_command() -> (r: &'static str)
    ensures
        r@ == "exec_takemisc.cgi?com=stopliveview"@,
{
    "exec_takemisc.cgi?com=stopliveview"
}

/// How one initialization step's outcome advances the sequence: success moves
/// on (after the inter-command delay), failure fails the whole
/// initialization.
pub fn init_step_result(command_ok: bool) -> (r: Result<u64, CameraError>)
    ensures
        command_ok ==> r == Ok::<u64, CameraError>(INIT_STEP_DELAY_MS),
        !command_ok ==> r == Err::<u64, CameraError>(CameraError::InitFailed),
{
    if command_ok {
        Ok(INIT_STEP_DELAY_MS)
    } else {
        Err(CameraError::InitFailed)
    }
}

/// How the start-live-view command's outcome ends the initialization:
/// success is followed by the streaming warm-up wait, failure fails the
/// start.
pub fn start_live_view_result(command_ok: bool) -> (r: Result<u64, CameraError>)
    ensures
        command_ok ==> r == Ok::<u64, CameraError>(STREAM_WARMUP_MS),
        !command_ok ==> r == Err::<u64, CameraError>(CameraError::StartFailed),
{
    if command_ok {
        Ok(STREAM_WARMUP_MS)
    } else {
        Err(CameraError::StartFailed)
    }
}

/// Stop the live view on the camera: the one stop command either went
/// through or the stop failed — nothing else depends on it.
pub fn stop_live_view(command_ok: bool) -> (r: Result<(), CameraError>)
    ensures
        command_ok ==> r == Ok::<(), CameraError>(()),
        !command_ok ==> r == Err::<(), CameraError>(CameraError::StopFailed),
{
    if command_ok {
        Ok(())
    } else {
        Err(CameraError::StopFailed)
    }
}

/// The connection sequence: query the connect mode, switch to record mode,
/// query the state, and point a throwaway live view at a fixed port.
pub fn connect_steps() -> (r: Vec<&'static str>)
    ensures
        r@.len() == 4,
        r@[0]@ == "get_connectmode.cgi"@,
        r@[1]@ == "switch_cameramode.cgi?mode=rec"@,
        r@[2]@ == "get_state.cgi"@,
        r@[3]@ == "exec_takemisc.cgi?com=startliveview&port=5555"@,
{
    let mut v: Vec<&'static str> = Vec::new();
    v.push("get_connectmode.cgi");
    v.push("switch_cameramode.cgi?mode=rec");
    v.push("get_state.cgi");
    v.push("exec_takemisc.cgi?com=startliveview&port=5555");
    v
}

/// Where a connection run stands: which step is next and how many attempts
/// that step has already cost.
#[derive(Clone, Copy, PartialEq, Eq, Structural, Debug)]
pub struct ConnectProgress {
    /// Index of the current step.
    pub step: u32,
    /// Attempts already spent on the current step.
    pub attempts: u32,
}

/// What the connection driver does next.
#[derive(Clone, Copy, PartialEq, Eq, Structural, Debug)]
pub enum ConnectAction {
    /// The step succeeded: wait the growing inter-step delay, move on.
    NextStep { delay_ms: u64 },
    /// The step failed but attempts remain: wait the backoff, try it again.
    Retry { delay_ms: u64 },
    /// All steps succeeded: wait, then verify with a state check.
    Verify { delay_ms: u64 },
    /// The step failed all its attempts: the connection fails.
    Fail,
}

/// Advance the connection sequence on one step outcome. Success waits half a
/// second more per completed step and moves to the next step — or, after the
/// last, to verification after a full second. Failure retries the same step
/// after a growing backoff, up to three attempts, then fails the connection.
pub fn connect_advance(p: &mut ConnectProgress, steps_total: u32, step_ok: bool) -> (a:
    ConnectAction)
    requires
        old(p).step < steps_total,
        old(p).attempts < CONNECT_ATTEMPTS,
        steps_total <= 8,
    ensures
        step_ok && old(p).step + 1 < steps_total ==> a == (ConnectAction::NextStep {
            delay_ms: (500 * (old(p).step + 1)) as u64,
        }) && *final(p) == (ConnectProgress { step: (old(p).step + 1) as u32, attempts: 0 }),
        step_ok && old(p).step + 1 == steps_total ==> a == (ConnectAction::Verify {
            delay_ms: 1000,
        }) && *final(p) == (ConnectProgress { step: steps_total, attempts: 0 }),
        !step_ok && old(p).attempts + 1 < CONNECT_ATTEMPTS ==> a == (ConnectAction::Retry {
            delay_ms: (500 * (old(p).attempts + 1)) as u64,
        }) && *final(p) == (ConnectProgress {
            step: old(p).step,
            attempts: (old(p).attempts + 1) as u32,
        }),
        !step_ok && old(p).attempts + 1 == CONNECT_ATTEMPTS ==> a == ConnectAction::Fail
            && *final(p) == *old(p),
{
    if step_ok {
        let delay: u64 = 500 * ((p.step + 1) as u64);
        p.attempts = 0;
        p.step = p.step + 1;
        if p.step < steps_total {
            ConnectAction::NextStep { delay_ms: delay }
        } else {
            ConnectAction::Verify { delay_ms: 1000 }
        }
    } else {
        if p.attempts + 1 < CONNECT_ATTEMPTS {
            p.attempts = p.attempts + 1;
            ConnectAction::Retry { delay_ms: 500 * (p.attempts as u64) }
        } else {
            ConnectAction::Fail
        }
    }
}

/// How the final verification's outcome ends the connection: a passing state
/// check marks the camera connected, a failing one fails the connection.
pub fn verify_result(check_ok: bool) -> (r: Result<(), CameraError>)
    ensures
        check_ok ==> r == Ok::<(), CameraError>(()),
        !check_ok ==> r == Err::<(), CameraError>(CameraError::VerifyFailed),
{
    if check_ok {
        Ok(())
    } else {
        Err(CameraError::VerifyFailed)
    }
}

/// The backoff before retrying a failed request: half a second, doubled per
/// retry already made.
pub fn backoff_delay_ms(retries: u32) -> (r: u64)
    requires
        retries <= 32,
    ensures
        r == 500 * vstd::arithmetic::power2::pow2(retries as nat),
{
    let mut d: u64 = 500;
    let mut i: u32 = 0;
    assert(d == 500 * vstd::arithmetic::power2::pow2(0)) by {
        vstd::arithmetic::power2::lemma2_to64();
    }
    while i < retries
        invariant
            i <= retries <= 32,
            d == 500 * vstd::arithmetic::power2::pow2(i as nat),
        decreases retries - i,
    {
        proof {
            vstd::arithmetic::power2::lemma2_to64();
            vstd::arithmetic::power::lemma_pow_increases(2, (i + 1) as nat, 32);
            assert(vstd::arithmetic::power2::pow2((i + 1) as nat) <= 0x100000000);
            assert(vstd::arithmetic::power2::pow2((i + 1) as nat) == 2
                * vstd::arithmetic::power2::pow2(i as nat)) by {
                vstd::arithmetic::power2::lemma_pow2_adds(1, i as nat);
            }
        }
        d = d * 2;
        i = i + 1;
    }
    d
}

} // verus!
