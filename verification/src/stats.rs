//! Shared stream statistics.
//!
//! Purely observational counters the worker updates and the UI polls:
//! packets received, frames completed, and the time and size of the last
//! frame. Each field is overwritten, never appended; counters only grow
//! (saturating at the top of their range). In the running process the fields
//! live behind fine-grained locks; their arithmetic is decided here.

use vstd::prelude::*;

verus! {

/// The statistics of one streaming session.
#[derive(Clone, Copy, PartialEq, Eq, Structural, Debug)]
pub struct StreamStats {
    /// Packets received so far.
    pub packets_received: u64,
    /// Frames completed so far (shed frames count too).
    pub jpeg_frames: u64,
    /// Frames completed since the last heartbeat.
    pub interval_frames: u64,
    /// When the last frame completed, in the caller's monotonic milliseconds.
    pub last_frame_time_ms: u64,
    /// Size in bytes of the last completed frame.
    pub last_frame_size: usize,
}

/// A counter incremented by one, saturating at the top of its range.
pub open spec fn counted(c: u64) -> u64 {
    if c == u64::MAX {
        c
    } else {
        (c + 1) as u64
    }
}

impl StreamStats {
    /// Fresh statistics, all zero, as of time `now_ms`.
    pub fn new(now_ms: u64) -> (r: StreamStats)
        ensures
            r == (StreamStats {
                packets_received: 0,
                jpeg_frames: 0,
                interval_frames: 0,
                last_frame_time_ms: now_ms,
                last_frame_size: 0,
            }),
    {
        StreamStats {
            packets_received: 0,
            jpeg_frames: 0,
            interval_frames: 0,
            last_frame_time_ms: now_ms,
            last_frame_size: 0,
        }
    }

    /// One more packet arrived.
    pub fn record_packet(&mut self)
        ensures
            *final(self) == (StreamStats {
                packets_received: counted(old(self).packets_received),
                ..*old(self)
            }),
            final(self).packets_received >= old(self).packets_received,
    {
        if self.packets_received < u64::MAX {
            self.packets_received = self.packets_received + 1;
        }
    }

    /// One more frame completed at `now_ms` with `size` bytes.
    pub fn record_frame(&mut self, now_ms: u64, size: usize)
        ensures
            *final(self) == (StreamStats {
                jpeg_frames: counted(old(self).jpeg_frames),
                interval_frames: counted(old(self).interval_frames),
                last_frame_time_ms: now_ms,
                last_frame_size: size,
                ..*old(self)
            }),
            final(self).jpeg_frames >= old(self).jpeg_frames,
    {
        if self.jpeg_frames < u64::MAX {
            self.jpeg_frames = self.jpeg_frames + 1;
        }
        if self.interval_frames < u64::MAX {
            self.interval_frames = self.interval_frames + 1;
        }
        self.last_frame_time_ms = now_ms;
        self.last_frame_size = size;
    }

    /// A heartbeat was emitted: the interval frame count starts over.
    pub fn reset_interval(&mut self)
        ensures
            *final(self) == (StreamStats { interval_frames: 0, ..*old(self) }),
    {
        self.interval_frames = 0;
    }

    /// The packet count, frame count and last frame size, as the UI shows
    /// them.
    pub fn snapshot(&self) -> (r: (u64, u64, usize))
        ensures
            r == (self.packets_received, self.jpeg_frames, self.last_frame_size),
    {
        (self.packets_received, self.jpeg_frames, self.last_frame_size)
    }
}

} // verus!
