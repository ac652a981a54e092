//! Frame rate limiter.
//!
//! Publication of frames is gated to a target cadence: an attempt is
//! permitted only when at least the configured minimum interval has
//! passed since the last recorded attempt. The frame consumer records an
//! attempt only when it actually publishes, so the reference point is
//! the last-publish time. Times are monotonic nanosecond readings
//! supplied by the caller.

use vstd::prelude::*;

verus! {

/// Nanoseconds in one second.
pub const NANOS_PER_SEC: u64 = 1_000_000_000;

/// Gate controlling publish cadence: the time of the last permitted
/// attempt and the minimum allowed spacing between permitted attempts.
pub struct FrameRateLimiter {
    /// Nanosecond reading of the last recorded attempt: in the frame
    /// pipeline, the time of the last publication.
    pub last_frame_ns: u64,
    /// Minimum nanoseconds between permitted attempts.
    pub min_frame_interval_ns: u64,
}

/// Nanoseconds elapsed from `last` to `now`, zero when the clock reads
/// earlier than `last`.
pub open spec fn spec_elapsed_ns(last: u64, now: u64) -> int {
    if now >= last {
        now - last
    } else {
        0
    }
}

impl FrameRateLimiter {
    /// Whether an attempt at `now_ns` would be permitted.
    pub open spec fn spec_permits(self, now_ns: u64) -> bool {
        spec_elapsed_ns(self.last_frame_ns, now_ns) >= self.min_frame_interval_ns
    }

    /// A limiter for the given target rate: permitted attempts are at
    /// least `NANOS_PER_SEC / target_fps` nanoseconds apart, starting
    /// from the creation time `now_ns`.
    pub fn new(target_fps: u64, now_ns: u64) -> (r: FrameRateLimiter)
        requires
            target_fps >= 1,
        ensures
            r.last_frame_ns == now_ns,
            r.min_frame_interval_ns == NANOS_PER_SEC as int / target_fps as int,
    {
        FrameRateLimiter { last_frame_ns: now_ns, min_frame_interval_ns: NANOS_PER_SEC / target_fps }
    }

    /// Whether an attempt at `now_ns` would be permitted, recording
    /// nothing.
    pub fn permits(&self, now_ns: u64) -> (r: bool)
        ensures
            r == self.spec_permits(now_ns),
    {
        let elapsed: u64 = if now_ns >= self.last_frame_ns {
            now_ns - self.last_frame_ns
        } else {
            0
        };
        elapsed >= self.min_frame_interval_ns
    }

    /// Records an attempt at `now_ns`: permitted exactly when the minimum
    /// interval has elapsed since the last permitted attempt, in which
    /// case that attempt becomes the new reference point.
    pub fn try_acquire(&mut self, now_ns: u64) -> (permitted: bool)
        ensures
            permitted == old(self).spec_permits(now_ns),
            permitted ==> *final(self) == (FrameRateLimiter {
                last_frame_ns: now_ns,
                min_frame_interval_ns: old(self).min_frame_interval_ns,
            }),
            !permitted ==> *final(self) == *old(self),
    {
        let elapsed: u64 = if now_ns >= self.last_frame_ns {
            now_ns - self.last_frame_ns
        } else {
            0
        };
        if elapsed >= self.min_frame_interval_ns {
            self.last_frame_ns = now_ns;
            true
        } else {
            false
        }
    }
}

impl Default for FrameRateLimiter {
    /// The default limiter targets sixty permitted attempts per second,
    /// measured from a zero clock reading.
    fn default() -> (r: FrameRateLimiter)
        ensures
            r.last_frame_ns == 0,
            r.min_frame_interval_ns == NANOS_PER_SEC as int / 60,
    {
        FrameRateLimiter::new(60, 0)
    }
}

/// The limiter state after a sequence of attempts at the given times.
pub open spec fn spec_run_attempts(l: FrameRateLimiter, times: Seq<u64>) -> FrameRateLimiter
    decreases times.len(),
{
    if times.len() == 0 {
        l
    } else {
        let prev = spec_run_attempts(l, times.drop_last());
        if prev.spec_permits(times.last()) {
            FrameRateLimiter {
                last_frame_ns: times.last(),
                min_frame_interval_ns: prev.min_frame_interval_ns,
            }
        } else {
            prev
        }
    }
}

/// Whether the attempt at position `i` of `times` is permitted, starting
/// from limiter state `l`.
pub open spec fn spec_attempt_permitted(l: FrameRateLimiter, times: Seq<u64>, i: int) -> bool
    recommends
        0 <= i < times.len(),
{
    spec_run_attempts(l, times.take(i)).spec_permits(times[i])
}

/// Running attempts never changes the configured interval.
proof fn lemma_run_attempts_interval(l: FrameRateLimiter, times: Seq<u64>)
    ensures
        spec_run_attempts(l, times).min_frame_interval_ns == l.min_frame_interval_ns,
    decreases times.len(),
{
    if times.len() > 0 {
        lemma_run_attempts_interval(l, times.drop_last());
    }
}

/// After an attempt permitted at position `i`, the limiter's reference
/// time never drops below that attempt's time.
proof fn lemma_run_attempts_last_bound(l: FrameRateLimiter, times: Seq<u64>, i: int, k: int)
    requires
        forall|a: int, b: int|
            0 <= a <= b < times.len() ==> #[trigger] times[a] <= #[trigger] times[b],
        0 <= i < k <= times.len(),
        spec_attempt_permitted(l, times, i),
    ensures
        spec_run_attempts(l, times.take(k)).last_frame_ns >= times[i],
    decreases k,
{
    let prefix = times.take(k);
    if k == i + 1 {
        assert(prefix.drop_last() == times.take(i));
        assert(prefix.last() == times[i]);
    } else {
        lemma_run_attempts_last_bound(l, times, i, k - 1);
        assert(prefix.drop_last() == times.take(k - 1));
        assert(prefix.last() == times[k - 1]);
    }
}

/// No two permitted attempts lie closer together than the configured
/// minimum interval: for any nondecreasing sequence of attempt times, if
/// the attempts at positions `i` and `j` are both permitted, their times
/// differ by at least `min_frame_interval_ns`.
pub proof fn lemma_rate_limiter_spacing(l: FrameRateLimiter, times: Seq<u64>, i: int, j: int)
    requires
        forall|a: int, b: int|
            0 <= a <= b < times.len() ==> #[trigger] times[a] <= #[trigger] times[b],
        0 <= i < j < times.len(),
        spec_attempt_permitted(l, times, i),
        spec_attempt_permitted(l, times, j),
    ensures
        times[j] as int - times[i] as int >= l.min_frame_interval_ns,
{
    lemma_run_attempts_last_bound(l, times, i, j);
    lemma_run_attempts_interval(l, times.take(j));
    let before_j = spec_run_attempts(l, times.take(j));
    assert(spec_elapsed_ns(before_j.last_frame_ns, times[j]) >= l.min_frame_interval_ns);
    if l.min_frame_interval_ns > 0 {
        assert(times[j] >= before_j.last_frame_ns);
        assert(before_j.last_frame_ns >= times[i]);
    } else {
        assert(times[i] <= times[j]);
    }
}

} // verus!
