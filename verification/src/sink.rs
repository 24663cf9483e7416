//! Delivery of completed frames to the external player's conduit.
//!
//! The sink does not own the conduit handle — the surrounding process does —
//! but it decides everything about a delivery: whether the frame is shed
//! under load, how long to sleep so that writes keep the pacing interval,
//! when the conduit is due for its periodic proactive reset, and how to
//! recover from a broken conduit. Times are monotonic milliseconds supplied
//! by the caller.

use vstd::prelude::*;

verus! {

/// Target inter-write interval: about 30 frames per second.
pub const PACE_INTERVAL_MS: u64 = 33;

/// If a frame completes this soon after the previous write, the pipeline is
/// under pressure and alternate frames are shed.
pub const SHED_THRESHOLD_MS: u64 = 20;

/// The conduit is proactively closed and reopened after this much continuous
/// service, even absent errors.
pub const CONDUIT_RESET_INTERVAL_MS: u64 = 30000;

/// Delay between closing a conduit and reopening it, letting the player
/// release its end.
pub const REOPEN_DELAY_MS: u64 = 100;

/// What to do with one completed frame.
#[derive(Clone, Copy, PartialEq, Eq, Structural, Debug)]
pub enum DeliveryPlan {
    /// Drop the frame: the pipeline is under pressure and this frame is shed.
    Shed,
    /// Write the frame after sleeping `sleep_ms`; when `reset_conduit` is
    /// set, close and reopen the conduit first (scheduled maintenance).
    Write { sleep_ms: u64, reset_conduit: bool },
}

/// How to react to a failed write.
#[derive(Clone, Copy, PartialEq, Eq, Structural, Debug)]
pub enum RecoveryPlan {
    /// The failure was not a broken conduit (a failed flush, say): log it and
    /// carry on; the session is unaffected.
    CarryOn,
    /// The conduit broke: close it, wait `delay_ms`, then try to reopen.
    Reopen { delay_ms: u64 },
}

/// Pacing, shedding and maintenance state of the frame sink. All times are
/// monotonic milliseconds as supplied by the caller.
pub struct FrameSink {
    /// When the last write was made (or, between planning and completion,
    /// the earliest moment the planned write may happen).
    pub last_write_ms: u64,
    /// Number of frames written so far; its parity drives load shedding.
    pub frame_counter: u64,
    /// When the conduit was last opened or reset.
    pub last_reset_ms: u64,
    /// Whether the conduit is currently believed open.
    pub conduit_open: bool,
}

/// A counter incremented by one, wrapping at the 64-bit boundary.
pub open spec fn counter_after(c: u64) -> u64 {
    if c == u64::MAX {
        0
    } else {
        (c + 1) as u64
    }
}

/// A delivery is shed exactly when the frame arrives within the shedding
/// threshold of the previous write and the frame counter is odd: under
/// sustained pressure this drops alternate frames.
pub open spec fn spec_sheds(s: FrameSink, now_ms: u64) -> bool
    recommends
        now_ms >= s.last_write_ms,
{
    now_ms - s.last_write_ms < SHED_THRESHOLD_MS && s.frame_counter % 2 == 1
}

/// The sleep that keeps writes at least the pacing interval apart.
pub open spec fn spec_pace_sleep(s: FrameSink, now_ms: u64) -> u64
    recommends
        now_ms >= s.last_write_ms,
{
    if now_ms - s.last_write_ms < PACE_INTERVAL_MS {
        (PACE_INTERVAL_MS - (now_ms - s.last_write_ms)) as u64
    } else {
        0
    }
}

/// One delivery decision: the plan for this frame and the sink state after
/// it. A shed frame changes nothing; a written frame books its write at
/// `now + sleep`, bumps the counter, and — when the conduit has served a full
/// maintenance interval — schedules the proactive reset.
pub open spec fn spec_plan_delivery(s: FrameSink, now_ms: u64) -> (FrameSink, DeliveryPlan)
    recommends
        now_ms >= s.last_write_ms,
        now_ms >= s.last_reset_ms,
        now_ms + PACE_INTERVAL_MS <= u64::MAX,
{
    if spec_sheds(s, now_ms) {
        (s, DeliveryPlan::Shed)
    } else {
        let sleep = spec_pace_sleep(s, now_ms);
        let reset = now_ms - s.last_reset_ms > CONDUIT_RESET_INTERVAL_MS;
        (
            FrameSink {
                last_write_ms: (now_ms + sleep) as u64,
                frame_counter: counter_after(s.frame_counter),
                last_reset_ms: if reset {
                    now_ms
                } else {
                    s.last_reset_ms
                },
                conduit_open: s.conduit_open,
            },
            DeliveryPlan::Write { sleep_ms: sleep, reset_conduit: reset },
        )
    }
}

impl FrameSink {
    /// A fresh sink, as of time `now_ms`, with the conduit in the given
    /// state.
    pub fn new(now_ms: u64, conduit_open: bool) -> (r: FrameSink)
        ensures
            r == (FrameSink {
                last_write_ms: now_ms,
                frame_counter: 0,
                last_reset_ms: now_ms,
                conduit_open,
            }),
    {
        FrameSink { last_write_ms: now_ms, frame_counter: 0, last_reset_ms: now_ms, conduit_open }
    }

    /// Decide what to do with one completed frame: shed it, or write it after
    /// the pacing sleep (resetting the conduit first when maintenance is
    /// due). Exactly one step of `spec_plan_delivery`.
    pub fn plan_delivery(&mut self, now_ms: u64) -> (plan: DeliveryPlan)
        requires
            now_ms >= old(self).last_write_ms,
            now_ms >= old(self).last_reset_ms,
            now_ms + PACE_INTERVAL_MS <= u64::MAX,
        ensures
            (*final(self), plan) == spec_plan_delivery(*old(self), now_ms),
    {
        if now_ms - self.last_write_ms < SHED_THRESHOLD_MS && self.frame_counter % 2 == 1 {
            return DeliveryPlan::Shed;
        }
        let since_write = now_ms - self.last_write_ms;
        let sleep_ms: u64 = if since_write < PACE_INTERVAL_MS {
            PACE_INTERVAL_MS - since_write
        } else {
            0
        };
        let reset_conduit = now_ms - self.last_reset_ms > CONDUIT_RESET_INTERVAL_MS;
        self.last_write_ms = now_ms + sleep_ms;
        self.frame_counter = if self.frame_counter == u64::MAX {
            0
        } else {
            self.frame_counter + 1
        };
        if reset_conduit {
            self.last_reset_ms = now_ms;
        }
        DeliveryPlan::Write { sleep_ms, reset_conduit }
    }

    /// Record that the planned write completed at `completed_ms` (the write
    /// itself takes time, so the recorded moment may be later than booked).
    pub fn record_write_completed(&mut self, completed_ms: u64)
        requires
            completed_ms >= old(self).last_write_ms,
        ensures
            *final(self) == (FrameSink { last_write_ms: completed_ms, ..*old(self) }),
    {
        self.last_write_ms = completed_ms;
    }

    /// Record the outcome of a conduit open or reset attempt at `now_ms`.
    pub fn record_reset(&mut self, now_ms: u64, opened: bool)
        ensures
            *final(self) == (FrameSink {
                last_reset_ms: now_ms,
                conduit_open: opened,
                ..*old(self)
            }),
    {
        self.last_reset_ms = now_ms;
        self.conduit_open = opened;
    }

    /// React to a failed write: a broken conduit is closed and reopened after
    /// a short delay; any other failure is non-fatal and changes nothing.
    pub fn handle_write_error(&mut self, broken_conduit: bool) -> (r: RecoveryPlan)
        ensures
            broken_conduit ==> r == (RecoveryPlan::Reopen { delay_ms: REOPEN_DELAY_MS })
                && *final(self) == (FrameSink { conduit_open: false, ..*old(self) }),
            !broken_conduit ==> r == RecoveryPlan::CarryOn && *final(self) == *old(self),
    {
        if broken_conduit {
            self.conduit_open = false;
            RecoveryPlan::Reopen { delay_ms: REOPEN_DELAY_MS }
        } else {
            RecoveryPlan::CarryOn
        }
    }
}

/// Pacing: whenever a frame is written, the moment booked for the write is at
/// least the pacing interval after the previous write, so actual writes are
/// separated by at least the configured interval.
pub proof fn lemma_pacing(s: FrameSink, now_ms: u64)
    requires
        now_ms >= s.last_write_ms,
        now_ms + PACE_INTERVAL_MS <= u64::MAX,
    ensures
        ({
            let (s2, plan) = spec_plan_delivery(s, now_ms);
            plan is Write ==> s2.last_write_ms >= s.last_write_ms + PACE_INTERVAL_MS
                && s2.last_write_ms >= now_ms + plan->sleep_ms
        }),
{
}

/// Pacing across deliveries: when a write is planned, completed and recorded,
/// and a later frame is written in turn, the second write is booked at least
/// the pacing interval after the first one completed — actual writes at the
/// sink boundary keep the configured spacing.
pub proof fn lemma_consecutive_writes_keep_interval(
    s: FrameSink,
    now1: u64,
    completed1: u64,
    now2: u64,
)
    requires
        now1 >= s.last_write_ms,
        now1 + PACE_INTERVAL_MS <= u64::MAX,
        spec_plan_delivery(s, now1).1 is Write,
        completed1 >= spec_plan_delivery(s, now1).0.last_write_ms,
        now2 >= completed1,
        now2 + PACE_INTERVAL_MS <= u64::MAX,
    ensures
        ({
            let s1 = FrameSink { last_write_ms: completed1, ..spec_plan_delivery(s, now1).0 };
            let (s2, p2) = spec_plan_delivery(s1, now2);
            p2 is Write ==> s2.last_write_ms >= completed1 + PACE_INTERVAL_MS
        }),
{
    let s1 = FrameSink { last_write_ms: completed1, ..spec_plan_delivery(s, now1).0 };
    lemma_pacing(s1, now2);
}

/// A burst: every frame arrives after the previous write was recorded but
/// within the shedding threshold of it.
pub open spec fn is_shed_burst(s: FrameSink, arrivals: Seq<u64>) -> bool
    decreases arrivals.len(),
{
    arrivals.len() == 0 || {
        &&& s.last_write_ms <= arrivals[0]
        &&& arrivals[0] - s.last_write_ms < SHED_THRESHOLD_MS
        &&& s.last_reset_ms <= arrivals[0]
        &&& arrivals[0] + PACE_INTERVAL_MS <= u64::MAX
        &&& is_shed_burst(spec_plan_delivery(s, arrivals[0]).0, arrivals.drop_first())
    }
}

/// How many frames of a run of deliveries are actually written.
pub open spec fn writes_in(s: FrameSink, arrivals: Seq<u64>) -> nat
    decreases arrivals.len(),
{
    if arrivals.len() == 0 {
        0
    } else {
        (if spec_plan_delivery(s, arrivals[0]).1 is Write {
            1nat
        } else {
            0nat
        }) + writes_in(spec_plan_delivery(s, arrivals[0]).0, arrivals.drop_first())
    }
}

/// Once the frame counter is odd, a sustained burst writes nothing: every
/// frame arriving within the shedding threshold of the last write is shed.
proof fn lemma_odd_counter_burst_writes_nothing(s: FrameSink, arrivals: Seq<u64>)
    requires
        s.frame_counter % 2 == 1,
        is_shed_burst(s, arrivals),
    ensures
        writes_in(s, arrivals) == 0,
    decreases arrivals.len(),
{
    if arrivals.len() > 0 {
        assert(spec_sheds(s, arrivals[0]));
        lemma_odd_counter_burst_writes_nothing(s, arrivals.drop_first());
    }
}

/// Load shedding: over a sustained burst — every frame completing within the
/// shedding threshold of the previous write — at most half the frames
/// (rounded up) are written to the conduit.
pub proof fn lemma_load_shedding(s: FrameSink, arrivals: Seq<u64>)
    requires
        is_shed_burst(s, arrivals),
    ensures
        2 * writes_in(s, arrivals) <= arrivals.len() + 1,
    decreases arrivals.len(),
{
    if arrivals.len() > 0 {
        let (s2, plan) = spec_plan_delivery(s, arrivals[0]);
        if plan is Write {
            assert(s.frame_counter % 2 == 0);
            assert(s2.frame_counter % 2 == 1);
            lemma_odd_counter_burst_writes_nothing(s2, arrivals.drop_first());
        } else {
            lemma_load_shedding(s2, arrivals.drop_first());
        }
    }
}

} // verus!
