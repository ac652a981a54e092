//! Rolling timing window.
//!
//! A fixed-capacity buffer of recent per-frame durations in nanoseconds.
//! On overflow the oldest sample is evicted. The average duration yields
//! an instantaneous frames-per-second estimate, reported in thousandths
//! of a frame per second.

use vstd::prelude::*;

verus! {

/// Thousandths of a frame per second in one second of nanoseconds:
/// `NANOS_PER_SEC * 1000`.
pub const FPS_MILLI_NUMERATOR: u64 = 1_000_000_000_000;

/// Sum of a sequence of durations.
pub open spec fn spec_sum_ns(s: Seq<u64>) -> int
    decreases s.len(),
{
    if s.len() == 0 {
        0
    } else {
        spec_sum_ns(s.drop_last()) + s.last()
    }
}

/// Average duration of a sequence, zero when it is empty.
pub open spec fn spec_average_ns(s: Seq<u64>) -> int {
    if s.len() == 0 {
        0
    } else {
        spec_sum_ns(s) / s.len() as int
    }
}

/// Frames-per-second estimate, in thousandths, derived from the average
/// duration; zero when the average is zero.
pub open spec fn spec_fps_milli(s: Seq<u64>) -> int {
    if spec_average_ns(s) == 0 {
        0
    } else {
        FPS_MILLI_NUMERATOR as int / spec_average_ns(s)
    }
}

/// Fixed-capacity ordered buffer of recent per-frame durations, oldest
/// first.
pub struct RollingTimingWindow {
    /// The retained samples, in nanoseconds, oldest first.
    pub samples: Vec<u64>,
    /// Greatest number of samples retained at once.
    pub capacity: usize,
}

impl RollingTimingWindow {
    /// The window never holds more than its capacity, which is positive.
    pub open spec fn wf(self) -> bool {
        &&& self.capacity > 0
        &&& self.samples@.len() <= self.capacity
    }

    /// An empty window retaining at most `capacity` samples.
    pub fn new(capacity: usize) -> (r: RollingTimingWindow)
        requires
            capacity > 0,
        ensures
            r.wf(),
            r.samples@ == Seq::<u64>::empty(),
            r.capacity == capacity,
    {
        RollingTimingWindow { samples: Vec::new(), capacity }
    }

    /// Appends a sample; when the window is full the oldest sample is
    /// evicted first.
    pub fn push(&mut self, sample_ns: u64)
        requires
            old(self).wf(),
        ensures
            final(self).wf(),
            final(self).capacity == old(self).capacity,
            final(self).samples@ == if old(self).samples@.len() < old(self).capacity {
                old(self).samples@.push(sample_ns)
            } else {
                old(self).samples@.drop_first().push(sample_ns)
            },
    {
        self.samples.push(sample_ns);
        if self.samples.len() > self.capacity {
            self.samples.remove(0);
            proof {
                assert(self.samples@ == old(self).samples@.drop_first().push(sample_ns));
            }
        }
    }

    /// The average of the retained samples, zero when none are retained.
    pub fn average_ns(&self) -> (r: u64)
        requires
            self.wf(),
        ensures
            r == spec_average_ns(self.samples@),
    {
        let n = self.samples.len();
        if n == 0 {
            return 0;
        }
        let mut sum: u128 = 0;
        let mut i: usize = 0;
        while i < n
            invariant
                i <= n,
                n == self.samples@.len(),
                sum == spec_sum_ns(self.samples@.take(i as int)),
                sum <= (i as int) * (u64::MAX as int),
            decreases n - i,
        {
            proof {
                assert(self.samples@.take(i as int + 1).drop_last() == self.samples@.take(i as int));
                assert((i as int) * (u64::MAX as int) + u64::MAX as int == (i as int + 1) * (
                u64::MAX as int)) by (nonlinear_arith);
            }
            sum = sum + self.samples[i] as u128;
            i += 1;
        }
        proof {
            assert(self.samples@.take(n as int) == self.samples@);
            let s = spec_sum_ns(self.samples@);
            assert(s / (n as int) <= u64::MAX as int) by (nonlinear_arith)
                requires
                    n > 0,
                    s >= 0,
                    s <= (n as int) * (u64::MAX as int),
            ;
            assert(s / (n as int) >= 0) by (nonlinear_arith)
                requires
                    n > 0,
                    s >= 0,
            ;
        }
        (sum / (n as u128)) as u64
    }

    /// The frames-per-second estimate, in thousandths of a frame per
    /// second, derived from the average retained duration.
    pub fn fps_millihertz(&self) -> (r: u64)
        requires
            self.wf(),
        ensures
            r == spec_fps_milli(self.samples@),
    {
        let avg = self.average_ns();
        if avg == 0 {
            0
        } else {
            FPS_MILLI_NUMERATOR / avg
        }
    }
}

} // verus!
