//! One step of the streaming worker.
//!
//! The worker loop in the running process blocks on the socket with a
//! timeout, observes the running flag, and hands every datagram here: the
//! packet is counted, fed to the reassembler, and a completed frame is
//! planned for delivery through the sink. What comes back is everything the
//! loop must do for this datagram — the completed frame, if any (to record
//! when recording is on), and whether to shed it or to write it after the
//! pacing sleep.

use vstd::prelude::*;

use crate::reassembler::{spec_step, AssemblyOutcome, FrameAssembly, OutcomeModel};
use crate::sink::{spec_plan_delivery, DeliveryPlan, FrameSink, PACE_INTERVAL_MS};
use crate::stats::{counted, StreamStats};

verus! {

/// Everything the worker loop must do for one datagram.
pub struct DatagramOutcome {
    /// The completed frame, when this datagram finished one.
    pub frame: Option<Vec<u8>>,
    /// How to deliver it: shed, or write after the pacing sleep. `None`
    /// exactly when no frame completed.
    pub plan: Option<DeliveryPlan>,
}

/// Feed one datagram through the pipeline: count it, reassemble, and plan
/// the delivery of a completed frame. The assembly state advances by exactly
/// one `spec_step`; a completed frame is handed back together with its
/// delivery plan, and is counted in the statistics whether it is shed or
/// written.
pub fn handle_datagram(
    assembly: &mut FrameAssembly,
    sink: &mut FrameSink,
    stats: &mut StreamStats,
    now_ms: u64,
    pkt: &[u8],
) -> (out: DatagramOutcome)
    requires
        now_ms >= old(sink).last_write_ms,
        now_ms >= old(sink).last_reset_ms,
        now_ms + PACE_INTERVAL_MS <= u64::MAX,
    ensures
        final(assembly)@ == spec_step(old(assembly)@, pkt@).0,
        ({
            let o = spec_step(old(assembly)@, pkt@).1;
            match o {
                OutcomeModel::FrameComplete(bytes) => {
                    &&& out.frame matches Some(f) && f@ == bytes
                    &&& out.plan == Some(spec_plan_delivery(*old(sink), now_ms).1)
                    &&& *final(sink) == spec_plan_delivery(*old(sink), now_ms).0
                    &&& *final(stats) == (StreamStats {
                        packets_received: counted(old(stats).packets_received),
                        jpeg_frames: counted(old(stats).jpeg_frames),
                        interval_frames: counted(old(stats).interval_frames),
                        last_frame_time_ms: now_ms,
                        last_frame_size: bytes.len() as usize,
                    })
                },
                _ => {
                    &&& out.frame is None
                    &&& out.plan is None
                    &&& *final(sink) == *old(sink)
                    &&& *final(stats) == (StreamStats {
                        packets_received: counted(old(stats).packets_received),
                        ..*old(stats)
                    })
                },
            }
        }),
{
    stats.record_packet();
    match assembly.classify_and_accumulate(pkt) {
        AssemblyOutcome::FrameComplete(frame) => {
            stats.record_frame(now_ms, frame.len());
            let plan = sink.plan_delivery(now_ms);
            DatagramOutcome { frame: Some(frame), plan: Some(plan) }
        },
        AssemblyOutcome::Continue => DatagramOutcome { frame: None, plan: None },
        AssemblyOutcome::Reset => DatagramOutcome { frame: None, plan: None },
    }
}

} // verus!
