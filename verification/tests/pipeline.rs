//! Tests for the coalescing drain, the rate limiter, the timing window
//! and the frame-consumer tick.

use offscreen_pipeline::channel::drain_latest;
use offscreen_pipeline::consumer::{extract_and_process_frame, FrameConsumer, TickOutcome};
use offscreen_pipeline::rate::FrameRateLimiter;
use offscreen_pipeline::slot::FrameSlot;
use offscreen_pipeline::stats::PerformanceStats;
use offscreen_pipeline::timing::RollingTimingWindow;

const MS: u64 = 1_000_000;

#[test]
fn drain_yields_newest_pending_value() {
    let (tx, rx) = crossbeam_channel::unbounded::<Vec<u8>>();
    let mut rx = rx;
    tx.send(vec![1]).unwrap();
    tx.send(vec![2]).unwrap();
    tx.send(vec![3, 3]).unwrap();
    assert_eq!(drain_latest(&mut rx), Some(vec![3, 3]));
    assert!(rx.is_empty());
}

#[test]
fn drain_yields_nothing_when_none_pending() {
    let (_tx, rx) = crossbeam_channel::unbounded::<Vec<u8>>();
    let mut rx = rx;
    assert_eq!(drain_latest(&mut rx), None);
}

#[test]
fn rate_limiter_at_sixty_per_second() {
    // 60/s means a 16.67 ms minimum interval: an attempt 5 ms after a
    // permitted one is skipped, one 20 ms after it succeeds.
    let mut l = FrameRateLimiter::new(60, 0);
    assert_eq!(l.min_frame_interval_ns, 1_000_000_000 / 60);
    assert!(l.try_acquire(100 * MS));
    assert!(!l.try_acquire(105 * MS));
    assert!(l.try_acquire(120 * MS));
}

#[test]
fn rate_limiter_default_targets_sixty() {
    let l = FrameRateLimiter::default();
    assert_eq!(l.last_frame_ns, 0);
    assert_eq!(l.min_frame_interval_ns, 16_666_666);
}

#[test]
fn timing_window_evicts_oldest_and_derives_fps() {
    let mut w = RollingTimingWindow::new(3);
    assert_eq!(w.average_ns(), 0);
    assert_eq!(w.fps_millihertz(), 0);
    w.push(10 * MS);
    w.push(20 * MS);
    w.push(30 * MS);
    assert_eq!(w.average_ns(), 20 * MS);
    assert_eq!(w.fps_millihertz(), 50_000);
    w.push(40 * MS);
    assert_eq!(w.samples, vec![20 * MS, 30 * MS, 40 * MS]);
    assert_eq!(w.average_ns(), 30 * MS);
    assert_eq!(w.fps_millihertz(), 33_333);
}

#[test]
fn preroll_keeps_slot_empty_then_fourth_frame_publishes() {
    // Pre-roll of three: frames arrive every tick, the slot stays empty
    // for three ticks, and the fourth arriving frame is published.
    let (tx, rx) = crossbeam_channel::unbounded::<Vec<u8>>();
    let mut rx = rx;
    let mut consumer = FrameConsumer::new(2, 2, 8, 3, 60, 60, 0);
    let mut slot = FrameSlot::new(2, 2);
    let mut stats = PerformanceStats::default();
    for tick in 1..=3u64 {
        tx.send(vec![tick as u8; 16]).unwrap();
        let o = extract_and_process_frame(&mut consumer, &mut rx, tick * 100 * MS, &mut slot, &mut stats);
        assert_eq!(o, TickOutcome::PreRoll);
        assert!(slot.frame.is_none());
        assert!(rx.is_empty());
    }
    tx.send(vec![9u8; 16]).unwrap();
    let o = extract_and_process_frame(&mut consumer, &mut rx, 400 * MS, &mut slot, &mut stats);
    assert!(matches!(o, TickOutcome::Published { .. }));
    assert_eq!(slot.frame, Some(vec![9u8; 16]));
    assert_eq!(stats.frame_count, 1);
    assert_eq!(stats.data_size_bytes, 16);
}

#[test]
fn rate_limited_tick_drains_without_publishing() {
    let (tx, rx) = crossbeam_channel::unbounded::<Vec<u8>>();
    let mut rx = rx;
    let mut consumer = FrameConsumer::new(2, 2, 8, 0, 60, 60, 0);
    let mut slot = FrameSlot::new(2, 2);
    let mut stats = PerformanceStats::default();
    tx.send(vec![1u8; 16]).unwrap();
    let o = extract_and_process_frame(&mut consumer, &mut rx, 100 * MS, &mut slot, &mut stats);
    assert!(matches!(o, TickOutcome::Published { .. }));
    assert_eq!(slot.frame, Some(vec![1u8; 16]));
    // 5 ms later: under the 16.67 ms interval, so the newer buffer is
    // discarded and the slot keeps the first frame.
    tx.send(vec![2u8; 16]).unwrap();
    let o = extract_and_process_frame(&mut consumer, &mut rx, 105 * MS, &mut slot, &mut stats);
    assert_eq!(o, TickOutcome::RateLimited);
    assert!(rx.is_empty());
    assert_eq!(slot.frame, Some(vec![1u8; 16]));
    assert_eq!(stats.frame_count, 1);
    assert_eq!(consumer.limiter.last_frame_ns, 100 * MS);
    // 20 ms after the first publication the interval has elapsed again.
    tx.send(vec![3u8; 16]).unwrap();
    let o = extract_and_process_frame(&mut consumer, &mut rx, 120 * MS, &mut slot, &mut stats);
    assert!(matches!(o, TickOutcome::Published { .. }));
    assert_eq!(slot.frame, Some(vec![3u8; 16]));
    assert_eq!(consumer.limiter.last_frame_ns, 120 * MS);
}

#[test]
fn empty_tick_is_a_pure_noop() {
    // A permitted tick that finds nothing keeps the last-publish
    // reference, so it does not delay the next publication.
    let (tx, rx) = crossbeam_channel::unbounded::<Vec<u8>>();
    let mut rx = rx;
    let mut consumer = FrameConsumer::new(2, 2, 8, 0, 60, 60, 0);
    let mut slot = FrameSlot::new(2, 2);
    let mut stats = PerformanceStats::default();
    let o = extract_and_process_frame(&mut consumer, &mut rx, 100 * MS, &mut slot, &mut stats);
    assert_eq!(o, TickOutcome::Empty);
    assert!(slot.frame.is_none());
    assert_eq!(stats.frame_count, 0);
    assert_eq!(consumer.limiter.last_frame_ns, 0);
    // One millisecond later a frame arrives: still permitted, since no
    // publication has happened yet.
    tx.send(vec![7u8; 16]).unwrap();
    let o = extract_and_process_frame(&mut consumer, &mut rx, 101 * MS, &mut slot, &mut stats);
    assert!(matches!(o, TickOutcome::Published { .. }));
    assert_eq!(consumer.limiter.last_frame_ns, 101 * MS);
}

#[test]
fn malformed_buffer_is_discarded() {
    let (tx, rx) = crossbeam_channel::unbounded::<Vec<u8>>();
    let mut rx = rx;
    let mut consumer = FrameConsumer::new(2, 2, 8, 0, 60, 60, 0);
    let mut slot = FrameSlot::new(2, 2);
    let mut stats = PerformanceStats::default();
    tx.send(vec![5u8; 3]).unwrap();
    let o = extract_and_process_frame(&mut consumer, &mut rx, 100 * MS, &mut slot, &mut stats);
    assert_eq!(o, TickOutcome::Malformed);
    assert!(slot.frame.is_none());
    assert_eq!(stats.frame_count, 0);
    assert_eq!(consumer.limiter.last_frame_ns, 0);
}

#[test]
fn tick_normalizes_padded_rows_before_publishing() {
    // width 1 at an 8-byte alignment: 4 row bytes padded to 8; two rows.
    let (tx, rx) = crossbeam_channel::unbounded::<Vec<u8>>();
    let mut rx = rx;
    let mut consumer = FrameConsumer::new(1, 2, 8, 0, 60, 60, 0);
    let mut slot = FrameSlot::new(1, 2);
    let mut stats = PerformanceStats::default();
    let data: Vec<u8> = (1..=16u8).collect();
    tx.send(data).unwrap();
    let o = extract_and_process_frame(&mut consumer, &mut rx, 100 * MS, &mut slot, &mut stats);
    assert!(matches!(o, TickOutcome::Published { .. }));
    assert_eq!(slot.frame, Some(vec![1, 2, 3, 4, 9, 10, 11, 12]));
    assert_eq!(stats.data_size_bytes, 8);
}

#[test]
fn tick_coalesces_to_newest_frame() {
    let (tx, rx) = crossbeam_channel::unbounded::<Vec<u8>>();
    let mut rx = rx;
    let mut consumer = FrameConsumer::new(2, 2, 8, 0, 60, 60, 0);
    let mut slot = FrameSlot::new(2, 2);
    let mut stats = PerformanceStats::default();
    tx.send(vec![1u8; 16]).unwrap();
    tx.send(vec![2u8; 16]).unwrap();
    tx.send(vec![3u8; 16]).unwrap();
    let o = extract_and_process_frame(&mut consumer, &mut rx, 100 * MS, &mut slot, &mut stats);
    assert!(matches!(o, TickOutcome::Published { .. }));
    assert_eq!(slot.frame, Some(vec![3u8; 16]));
    assert_eq!(stats.frame_count, 1);
}
