//! Performance statistics.
//!
//! A snapshot of pipeline timings and sizes: producer-side transfer,
//! processing and total durations, the derived frames-per-second
//! estimate, frame count and payload size, plus boundary-side fetch and
//! serialize durations. All durations are in nanoseconds; the
//! frames-per-second estimate is in thousandths.

use vstd::prelude::*;

verus! {

/// Snapshot of timings (in nanoseconds), counters and sizes for the
/// frame pipeline and the request boundary.
#[derive(Clone, Copy, PartialEq, Eq, Structural, Debug)]
pub struct PerformanceStats {
    /// Time spent draining the channel for the published frame.
    pub gpu_transfer_ns: u64,
    /// Time spent stripping row padding for the published frame.
    pub data_processing_ns: u64,
    /// Total time spent producing the published frame.
    pub frame_encoding_ns: u64,
    /// Frames-per-second estimate in thousandths, from the timing window.
    pub fps_milli: u64,
    /// Number of frames published so far.
    pub frame_count: u32,
    /// Size in bytes of the last published frame.
    pub data_size_bytes: u64,
    /// Boundary-side time to fetch the frame bytes from the slot.
    pub boundary_fetch_ns: u64,
    /// Boundary-side time to encode the fetched bytes.
    pub boundary_serialize_ns: u64,
}

impl Default for PerformanceStats {
    /// A snapshot with every timing, counter and size at zero.
    fn default() -> (r: PerformanceStats)
        ensures
            r == (PerformanceStats {
                gpu_transfer_ns: 0,
                data_processing_ns: 0,
                frame_encoding_ns: 0,
                fps_milli: 0,
                frame_count: 0,
                data_size_bytes: 0,
                boundary_fetch_ns: 0,
                boundary_serialize_ns: 0,
            }),
    {
        PerformanceStats {
            gpu_transfer_ns: 0,
            data_processing_ns: 0,
            frame_encoding_ns: 0,
            fps_milli: 0,
            frame_count: 0,
            data_size_bytes: 0,
            boundary_fetch_ns: 0,
            boundary_serialize_ns: 0,
        }
    }
}

/// Returns the current statistics snapshot.
pub fn get_performance_stats(stats: &PerformanceStats) -> (r: PerformanceStats)
    ensures
        r == *stats,
{
    *stats
}

} // verus!
