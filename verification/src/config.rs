//! Configuration constants: render resolution, cadence, pre-roll, camera
//! limits, timing-window size and compression quality.
//!
//! Angles and distances are fixed-point integers in millionths of a unit
//! (micro-radians, micro-units); pointer deltas are in thousandths of a
//! pixel (milli-pixels); times are in nanoseconds.

use vstd::prelude::*;

verus! {

/// Width of the offscreen render target in pixels.
pub const RENDER_WIDTH: u32 = 800;

/// Height of the offscreen render target in pixels.
pub const RENDER_HEIGHT: u32 = 600;

/// Target frames per second for the render loop and the output limiter.
pub const TARGET_FPS: u64 = 60;

/// Number of pre-roll ticks to skip before any frame is published,
/// letting the scene stabilize.
pub const PRE_ROLL_FRAMES: u32 = 30;

/// Row alignment the device imposes on texture-to-buffer copies: each
/// copied row starts at a multiple of this many bytes.
pub const COPY_ROW_ALIGN: usize = 256;

/// Number of per-frame duration samples kept for averaging.
pub const FRAME_TIMING_SAMPLES: usize = 60;

/// JPEG quality level (0-100) for the compressed frame encoding.
pub const JPEG_QUALITY: u8 = 85;

/// Micro-radians of yaw or pitch per milli-pixel of pointer drag
/// (0.005 radians per pixel).
pub const ROTATION_SPEED_MICRO_PER_MILLI: i64 = 5;

/// Micro-units of camera distance per milli-pixel of scroll
/// (0.5 units per scroll step).
pub const ZOOM_SPEED_MICRO_PER_MILLI: i64 = 500;

/// Minimum camera distance from the orbit center, in micro-units (2.0).
pub const MIN_DISTANCE_MICRO: i64 = 2_000_000;

/// Maximum camera distance from the orbit center, in micro-units (20.0).
pub const MAX_DISTANCE_MICRO: i64 = 20_000_000;

/// Maximum pitch in micro-radians (1.5 rad), strictly inside +90 degrees.
pub const MAX_PITCH_MICRO: i64 = 1_500_000;

/// Minimum pitch in micro-radians (-1.5 rad), strictly inside -90 degrees.
pub const MIN_PITCH_MICRO: i64 = -1_500_000;

} // verus!
