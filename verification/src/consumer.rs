//! Frame consumer.
//!
//! Orchestrates one tick of the extraction pipeline: during pre-roll it
//! drains and discards everything; in steady state it first consults the
//! rate limiter (draining without publishing when the minimum interval
//! since the last publication has not elapsed), then drains to the
//! newest buffer, strips its row padding, publishes the result into the
//! shared frame slot, appends the elapsed duration to the rolling timing
//! window and refreshes the performance statistics. The limiter's
//! reference time moves only when a frame is actually published: a
//! permitted tick that finds nothing to publish is a pure no-op apart
//! from draining, indistinguishable from one where not enough time had
//! elapsed yet. A buffer whose normalized size does not match the
//! configured frame geometry is discarded rather than published, so the
//! slot never holds a partial frame.

use crate::channel::{channel_contents, drain_latest};
use crate::clock::{elapsed_ns, instant_now};
use crate::padding::{remove_row_padding, spec_remove_row_padding};
use crate::rate::FrameRateLimiter;
use crate::slot::FrameSlot;
use crate::stats::PerformanceStats;
use crate::timing::{spec_fps_milli, RollingTimingWindow};
use vstd::prelude::*;

verus! {

/// What one tick of the consumer did.
#[derive(Clone, Copy, PartialEq, Eq, Structural, Debug)]
pub enum TickOutcome {
    /// Pre-roll: arriving buffers were discarded unseen.
    PreRoll,
    /// The minimum publish interval had not elapsed; buffers discarded.
    RateLimited,
    /// Nothing (or only an empty buffer) arrived this tick.
    Empty,
    /// The newest buffer did not normalize to a complete frame and was
    /// discarded.
    Malformed,
    /// A frame was published, with the measured durations in
    /// nanoseconds.
    Published {
        /// Time spent draining the channel.
        receive_ns: u64,
        /// Time spent stripping row padding.
        process_ns: u64,
        /// Total time from rate-limiter pass to publication.
        total_ns: u64,
    },
}

/// Per-consumer state: frame geometry, pre-roll countdown, rate limiter,
/// timing window and frame counter.
pub struct FrameConsumer {
    /// Logical frame width in pixels.
    pub width: u32,
    /// Logical frame height in pixels.
    pub height: u32,
    /// Device row alignment of the incoming copy buffers, in bytes.
    pub row_align: usize,
    /// Ticks left during which no frame is published.
    pub pre_roll: u32,
    /// Gate on the publish cadence.
    pub limiter: FrameRateLimiter,
    /// Recent per-frame durations.
    pub timings: RollingTimingWindow,
    /// Frames published so far.
    pub frame_count: u32,
}

impl FrameConsumer {
    /// Bytes in one tightly packed row.
    pub open spec fn spec_row_bytes(self) -> int {
        self.width as int * 4
    }

    /// Bytes in one complete tightly packed frame.
    pub open spec fn spec_frame_bytes(self) -> int {
        self.spec_row_bytes() * self.height as int
    }

    /// The normalizer's result on a drained buffer.
    pub open spec fn spec_normalized(self, data: Seq<u8>) -> Seq<u8> {
        spec_remove_row_padding(data, self.width as int, self.height as int, self.row_align as int)
    }

    /// Geometry fits the machine and the timing window is well formed.
    pub open spec fn wf(self) -> bool {
        &&& self.row_align > 0
        &&& self.spec_row_bytes() + self.row_align <= usize::MAX
        &&& self.spec_frame_bytes() <= usize::MAX
        &&& self.timings.wf()
    }

    /// The same consumer configuration: geometry, alignment, limiter
    /// interval and window capacity.
    pub open spec fn same_config(self, other: FrameConsumer) -> bool {
        &&& self.width == other.width
        &&& self.height == other.height
        &&& self.row_align == other.row_align
        &&& self.limiter.min_frame_interval_ns == other.limiter.min_frame_interval_ns
        &&& self.timings.capacity == other.timings.capacity
    }

    /// A consumer for the given geometry and cadence, with its pre-roll
    /// countdown full and nothing published yet.
    pub fn new(
        width: u32,
        height: u32,
        row_align: usize,
        pre_roll: u32,
        target_fps: u64,
        window_capacity: usize,
        now_ns: u64,
    ) -> (r: FrameConsumer)
        requires
            row_align > 0,
            target_fps >= 1,
            window_capacity > 0,
            width as int * 4 + row_align as int <= usize::MAX,
            (width as int * 4) * (height as int) <= usize::MAX,
        ensures
            r.wf(),
            r.width == width,
            r.height == height,
            r.row_align == row_align,
            r.pre_roll == pre_roll,
            r.frame_count == 0,
            r.limiter.last_frame_ns == now_ns,
            r.limiter.min_frame_interval_ns == crate::rate::NANOS_PER_SEC as int
                / target_fps as int,
            r.timings.samples@ == Seq::<u64>::empty(),
            r.timings.capacity == window_capacity,
    {
        FrameConsumer {
            width,
            height,
            row_align,
            pre_roll,
            limiter: FrameRateLimiter::new(target_fps, now_ns),
            timings: RollingTimingWindow::new(window_capacity),
            frame_count: 0,
        }
    }
}

/// Runs one tick of the frame pipeline at simulation time `now_ns`:
/// pre-roll skip, rate limiting, coalescing drain, padding removal,
/// publication into the slot, timing and statistics update.
///
/// During pre-roll the slot is untouched regardless of what arrived;
/// afterwards at most one frame per permitted tick is published, and only
/// a buffer that normalizes to exactly the configured frame size ever
/// reaches the slot. The rate limiter's reference point is the time of
/// the last publication: it moves only on a published tick, so every
/// skip path leaves the consumer's state exactly as it was (bar the
/// pre-roll countdown).
pub fn extract_and_process_frame(
    consumer: &mut FrameConsumer,
    receiver: &mut crossbeam_channel::Receiver<Vec<u8>>,
    now_ns: u64,
    slot: &mut FrameSlot,
    stats: &mut PerformanceStats,
) -> (outcome: TickOutcome)
    requires
        old(consumer).wf(),
        old(slot).wf(),
        old(slot).width == old(consumer).width,
        old(slot).height == old(consumer).height,
    ensures
        final(consumer).wf(),
        final(slot).wf(),
        old(consumer).same_config(*final(consumer)),
        final(slot).width == old(slot).width,
        final(slot).height == old(slot).height,
        channel_contents(*final(receiver)).len() == 0,
        // Pre-roll: everything drained and discarded, slot and stats untouched.
        old(consumer).pre_roll > 0 ==> outcome == TickOutcome::PreRoll && *final(slot) == *old(slot)
            && *final(stats) == *old(stats) && *final(consumer) == (FrameConsumer {
            pre_roll: (old(consumer).pre_roll - 1) as u32,
            ..*old(consumer)
        }),
        // Rate limited: everything drained and discarded, nothing else changed.
        old(consumer).pre_roll == 0 && !old(consumer).limiter.spec_permits(now_ns) ==> outcome
            == TickOutcome::RateLimited && *final(slot) == *old(slot) && *final(stats) == *old(stats) && *final(consumer) == *old(consumer),
        // Steady state, nothing usable pending: a pure no-op apart from
        // the drain — the limiter keeps the last publication time, so
        // this tick is indistinguishable from one where not enough time
        // had elapsed yet.
        ({
            let q = channel_contents(*old(receiver));
            (old(consumer).pre_roll == 0 && old(consumer).limiter.spec_permits(now_ns) && (q.len()
                == 0 || q.last().len() == 0)) ==> outcome == TickOutcome::Empty && *final(slot)
                == *old(slot) && *final(stats) == *old(stats) && *final(consumer) == *old(consumer)
        }),
        // Steady state, newest buffer does not normalize to a complete
        // frame: it is discarded, the slot keeps its previous content
        // and the limiter keeps the last publication time.
        ({
            let q = channel_contents(*old(receiver));
            (old(consumer).pre_roll == 0 && old(consumer).limiter.spec_permits(now_ns) && q.len()
                > 0 && q.last().len() > 0 && old(consumer).spec_normalized(q.last()).len() != old(consumer).spec_frame_bytes()) ==> outcome == TickOutcome::Malformed && *final(slot) == *old(slot) && *final(stats) == *old(stats) && *final(consumer) == *old(consumer)
        }),
        // Steady state, publication: the normalized newest buffer enters
        // the slot, the timing window gains the tick's duration, and the
        // statistics describe exactly this publication.
        ({
            let q = channel_contents(*old(receiver));
            let norm = old(consumer).spec_normalized(q.last());
            (old(consumer).pre_roll == 0 && old(consumer).limiter.spec_permits(now_ns) && q.len()
                > 0 && q.last().len() > 0 && norm.len() == old(consumer).spec_frame_bytes()) ==> (
            outcome matches TickOutcome::Published { receive_ns, process_ns, total_ns } && {
                &&& final(slot).frame is Some
                &&& final(slot).frame.unwrap()@ == norm
                &&& final(consumer).pre_roll == 0
                &&& final(consumer).limiter == (FrameRateLimiter {
                    last_frame_ns: now_ns,
                    min_frame_interval_ns: old(consumer).limiter.min_frame_interval_ns,
                })
                &&& final(consumer).frame_count == if old(consumer).frame_count < u32::MAX {
                    old(consumer).frame_count + 1
                } else {
                    old(consumer).frame_count as int
                }
                &&& final(consumer).timings.samples@ == if old(consumer).timings.samples@.len()
                    < old(consumer).timings.capacity {
                    old(consumer).timings.samples@.push(total_ns)
                } else {
                    old(consumer).timings.samples@.drop_first().push(total_ns)
                }
                &&& *final(stats) == (PerformanceStats {
                    gpu_transfer_ns: receive_ns,
                    data_processing_ns: process_ns,
                    frame_encoding_ns: total_ns,
                    fps_milli: spec_fps_milli(final(consumer).timings.samples@) as u64,
                    frame_count: final(consumer).frame_count,
                    data_size_bytes: norm.len() as u64,
                    boundary_fetch_ns: old(stats).boundary_fetch_ns,
                    boundary_serialize_ns: old(stats).boundary_serialize_ns,
                })
            })
        }),
{
    if consumer.pre_roll > 0 {
        let _ = drain_latest(receiver);
        consumer.pre_roll = consumer.pre_roll - 1;
        return TickOutcome::PreRoll;
    }
    if !consumer.limiter.permits(now_ns) {
        let _ = drain_latest(receiver);
        return TickOutcome::RateLimited;
    }
    let frame_start = instant_now();
    let receive_start = instant_now();
    let drained = drain_latest(receiver);
    let receive_ns = elapsed_ns(&receive_start);
    let data = match drained {
        Some(data) => data,
        None => {
            return TickOutcome::Empty;
        },
    };
    let process_start = instant_now();
    let normalized = remove_row_padding(
        data.as_slice(),
        consumer.width,
        consumer.height,
        consumer.row_align,
    );
    let process_ns = elapsed_ns(&process_start);
    let rgba = match normalized {
        Some(rgba) => rgba,
        None => {
            return TickOutcome::Empty;
        },
    };
    let row_bytes: usize = (consumer.width as usize) * 4;
    proof {
        assert(row_bytes * consumer.height as int <= usize::MAX);
    }
    let expected: usize = row_bytes * (consumer.height as usize);
    if rgba.len() != expected {
        return TickOutcome::Malformed;
    }
    let data_size = rgba.len();
    let _ = consumer.limiter.try_acquire(now_ns);
    slot.publish(rgba);
    if consumer.frame_count < u32::MAX {
        consumer.frame_count = consumer.frame_count + 1;
    }
    let total_ns = elapsed_ns(&frame_start);
    consumer.timings.push(total_ns);
    stats.gpu_transfer_ns = receive_ns;
    stats.data_processing_ns = process_ns;
    stats.frame_encoding_ns = total_ns;
    stats.frame_count = consumer.frame_count;
    stats.data_size_bytes = data_size as u64;
    stats.fps_milli = consumer.timings.fps_millihertz();
    TickOutcome::Published { receive_ns, process_ns, total_ns }
}

} // verus!
