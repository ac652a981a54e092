//! Orbit camera control.
//!
//! Pointer input accumulates into a mouse buffer (deltas add, button
//! flags overwrite) until the camera updater consumes and zeroes it once
//! per tick. A left-button drag rotates the camera (yaw and pitch, with
//! pitch clamped strictly inside the poles); the scroll wheel zooms
//! (distance, clamped to its configured range).
//!
//! Angles and distances are fixed-point integers in millionths of a
//! radian or unit; pointer deltas are in thousandths of a pixel, so a
//! rotation speed of 0.005 radians per pixel is exactly
//! `ROTATION_SPEED_MICRO_PER_MILLI` micro-radians per milli-pixel. The
//! trigonometric recomputation of the camera's position from these
//! spherical coordinates is left to the rendering embedding.

use crate::config::{
    MAX_DISTANCE_MICRO, MAX_PITCH_MICRO, MIN_DISTANCE_MICRO, MIN_PITCH_MICRO,
    ROTATION_SPEED_MICRO_PER_MILLI, ZOOM_SPEED_MICRO_PER_MILLI,
};
use vstd::prelude::*;

verus! {

/// `v` clamped into `[lo, hi]`.
pub open spec fn spec_clamp(v: int, lo: int, hi: int) -> int
    recommends
        lo <= hi,
{
    if v < lo {
        lo
    } else if v > hi {
        hi
    } else {
        v
    }
}

/// `v` saturated into the range of `i64`.
pub open spec fn spec_sat_i64(v: int) -> int {
    spec_clamp(v, i64::MIN as int, i64::MAX as int)
}

/// Saturating 64-bit subtraction.
fn sat_sub_i64(a: i64, b: i64) -> (r: i64)
    ensures
        r == spec_sat_i64(a as int - b as int),
{
    let wide: i128 = a as i128 - b as i128;
    if wide > i64::MAX as i128 {
        i64::MAX
    } else if wide < i64::MIN as i128 {
        i64::MIN
    } else {
        wide as i64
    }
}

/// Saturating 64-bit addition.
fn sat_add_i64(a: i64, b: i64) -> (r: i64)
    ensures
        r == spec_sat_i64(a as int + b as int),
{
    let wide: i128 = a as i128 + b as i128;
    if wide > i64::MAX as i128 {
        i64::MAX
    } else if wide < i64::MIN as i128 {
        i64::MIN
    } else {
        wide as i64
    }
}

/// Saturating 64-bit multiplication.
fn sat_mul_i64(a: i64, b: i64) -> (r: i64)
    ensures
        r == spec_sat_i64(a as int * b as int),
{
    proof {
        assert(i128::MIN <= a as int * b as int <= i128::MAX) by (nonlinear_arith)
            requires
                i64::MIN <= a <= i64::MAX,
                i64::MIN <= b <= i64::MAX,
        ;
    }
    let wide: i128 = a as i128 * b as i128;
    if wide > i64::MAX as i128 {
        i64::MAX
    } else if wide < i64::MIN as i128 {
        i64::MIN
    } else {
        wide as i64
    }
}

/// 64-bit clamp.
fn clamp_i64(v: i64, lo: i64, hi: i64) -> (r: i64)
    requires
        lo <= hi,
    ensures
        r == spec_clamp(v as int, lo as int, hi as int),
{
    if v < lo {
        lo
    } else if v > hi {
        hi
    } else {
        v
    }
}

/// Pointer input accumulated since the camera updater last consumed it.
/// Deltas are in milli-pixels and add up; button flags hold the latest
/// reported state.
#[derive(Clone, Copy, PartialEq, Eq, Structural, Debug)]
pub struct MouseInput {
    /// Accumulated horizontal movement, in milli-pixels.
    pub delta_x_milli: i64,
    /// Accumulated vertical movement, in milli-pixels.
    pub delta_y_milli: i64,
    /// Accumulated scroll wheel movement, in milli-pixels.
    pub scroll_delta_milli: i64,
    /// Whether the primary button is held.
    pub left_button: bool,
    /// Whether the secondary button is held.
    pub right_button: bool,
}

impl Default for MouseInput {
    /// No accumulated movement, no button held.
    fn default() -> (r: MouseInput)
        ensures
            r == (MouseInput {
                delta_x_milli: 0,
                delta_y_milli: 0,
                scroll_delta_milli: 0,
                left_button: false,
                right_button: false,
            }),
    {
        MouseInput {
            delta_x_milli: 0,
            delta_y_milli: 0,
            scroll_delta_milli: 0,
            left_button: false,
            right_button: false,
        }
    }
}

/// Folds one pointer report into the accumulator: deltas add
/// (saturating), button flags overwrite.
pub fn send_mouse_input(
    acc: &mut MouseInput,
    delta_x_milli: i64,
    delta_y_milli: i64,
    scroll_delta_milli: i64,
    left_button: bool,
    right_button: bool,
)
    ensures
        final(acc).delta_x_milli == spec_sat_i64(
            old(acc).delta_x_milli as int + delta_x_milli as int,
        ),
        final(acc).delta_y_milli == spec_sat_i64(
            old(acc).delta_y_milli as int + delta_y_milli as int,
        ),
        final(acc).scroll_delta_milli == spec_sat_i64(
            old(acc).scroll_delta_milli as int + scroll_delta_milli as int,
        ),
        final(acc).left_button == left_button,
        final(acc).right_button == right_button,
{
    acc.delta_x_milli = sat_add_i64(acc.delta_x_milli, delta_x_milli);
    acc.delta_y_milli = sat_add_i64(acc.delta_y_milli, delta_y_milli);
    acc.scroll_delta_milli = sat_add_i64(acc.scroll_delta_milli, scroll_delta_milli);
    acc.left_button = left_button;
    acc.right_button = right_button;
}

/// Takes the accumulated input, zeroing the deltas and leaving the
/// button flags in place.
pub fn take_mouse_input(acc: &mut MouseInput) -> (taken: MouseInput)
    ensures
        taken == *old(acc),
        *final(acc) == (MouseInput {
            delta_x_milli: 0,
            delta_y_milli: 0,
            scroll_delta_milli: 0,
            left_button: old(acc).left_button,
            right_button: old(acc).right_button,
        }),
{
    let taken = *acc;
    acc.delta_x_milli = 0;
    acc.delta_y_milli = 0;
    acc.scroll_delta_milli = 0;
    taken
}

/// Orbit camera pose in spherical coordinates around a center point.
#[derive(Clone, Copy, PartialEq, Eq, Structural, Debug)]
pub struct OrbitCameraState {
    /// Horizontal rotation angle, in micro-radians.
    pub yaw_micro: i64,
    /// Vertical rotation angle, in micro-radians, clamped strictly
    /// inside the poles.
    pub pitch_micro: i64,
    /// Distance from the camera to the center point, in micro-units.
    pub distance_micro: i64,
    /// Center point the camera orbits, in micro-units.
    pub center_x_micro: i64,
    /// Center point the camera orbits, in micro-units.
    pub center_y_micro: i64,
    /// Center point the camera orbits, in micro-units.
    pub center_z_micro: i64,
}

impl OrbitCameraState {
    /// Pitch and distance lie within their configured clamp ranges.
    pub open spec fn wf(self) -> bool {
        &&& MIN_PITCH_MICRO <= self.pitch_micro <= MAX_PITCH_MICRO
        &&& MIN_DISTANCE_MICRO <= self.distance_micro <= MAX_DISTANCE_MICRO
    }
}

impl Default for OrbitCameraState {
    /// Zero yaw, a slight downward pitch of 0.4 radians, a distance of
    /// 6.5 units, orbiting the origin.
    fn default() -> (r: OrbitCameraState)
        ensures
            r == (OrbitCameraState {
                yaw_micro: 0,
                pitch_micro: 400_000,
                distance_micro: 6_500_000,
                center_x_micro: 0,
                center_y_micro: 0,
                center_z_micro: 0,
            }),
            r.wf(),
    {
        OrbitCameraState {
            yaw_micro: 0,
            pitch_micro: 400_000,
            distance_micro: 6_500_000,
            center_x_micro: 0,
            center_y_micro: 0,
            center_z_micro: 0,
        }
    }
}

/// The orbit state after applying one batch of consumed pointer input:
/// a left-button drag turns into yaw and pitch changes (pitch clamped),
/// scroll turns into a distance change (clamped); everything else is
/// unchanged.
pub open spec fn spec_update_orbit(s: OrbitCameraState, input: MouseInput) -> OrbitCameraState {
    let rotating = input.left_button && (input.delta_x_milli != 0 || input.delta_y_milli != 0);
    let yaw = if rotating {
        spec_sat_i64(
            s.yaw_micro - spec_sat_i64(input.delta_x_milli * ROTATION_SPEED_MICRO_PER_MILLI),
        )
    } else {
        s.yaw_micro as int
    };
    let pitch = if rotating {
        spec_clamp(
            spec_sat_i64(
                s.pitch_micro - spec_sat_i64(input.delta_y_milli * ROTATION_SPEED_MICRO_PER_MILLI),
            ),
            MIN_PITCH_MICRO as int,
            MAX_PITCH_MICRO as int,
        )
    } else {
        s.pitch_micro as int
    };
    let distance = if input.scroll_delta_milli != 0 {
        spec_clamp(
            spec_sat_i64(
                s.distance_micro - spec_sat_i64(
                    input.scroll_delta_milli * ZOOM_SPEED_MICRO_PER_MILLI,
                ),
            ),
            MIN_DISTANCE_MICRO as int,
            MAX_DISTANCE_MICRO as int,
        )
    } else {
        s.distance_micro as int
    };
    OrbitCameraState {
        yaw_micro: yaw as i64,
        pitch_micro: pitch as i64,
        distance_micro: distance as i64,
        ..s
    }
}

/// Consumes the accumulated pointer input and updates the orbit pose
/// from it. Zeroes the accumulator's deltas; leaves button flags in
/// place. The pitch always ends within its clamp range, whatever the
/// consumed deltas were; with a zero accumulator the pose is unchanged.
pub fn update_camera_from_input(orbit: &mut OrbitCameraState, acc: &mut MouseInput)
    requires
        old(orbit).wf(),
    ensures
        *final(orbit) == spec_update_orbit(*old(orbit), *old(acc)),
        final(orbit).wf(),
        MIN_PITCH_MICRO <= final(orbit).pitch_micro <= MAX_PITCH_MICRO,
        *final(acc) == (MouseInput {
            delta_x_milli: 0,
            delta_y_milli: 0,
            scroll_delta_milli: 0,
            left_button: old(acc).left_button,
            right_button: old(acc).right_button,
        }),
{
    let input = take_mouse_input(acc);
    if input.left_button && (input.delta_x_milli != 0 || input.delta_y_milli != 0) {
        let yaw_step = sat_mul_i64(input.delta_x_milli, ROTATION_SPEED_MICRO_PER_MILLI);
        orbit.yaw_micro = sat_sub_i64(orbit.yaw_micro, yaw_step);
        let pitch_step = sat_mul_i64(input.delta_y_milli, ROTATION_SPEED_MICRO_PER_MILLI);
        let pitch_raw = sat_sub_i64(orbit.pitch_micro, pitch_step);
        orbit.pitch_micro = clamp_i64(pitch_raw, MIN_PITCH_MICRO, MAX_PITCH_MICRO);
    }
    if input.scroll_delta_milli != 0 {
        let zoom_step = sat_mul_i64(input.scroll_delta_milli, ZOOM_SPEED_MICRO_PER_MILLI);
        let distance_raw = sat_sub_i64(orbit.distance_micro, zoom_step);
        orbit.distance_micro = clamp_i64(distance_raw, MIN_DISTANCE_MICRO, MAX_DISTANCE_MICRO);
    }
}

} // verus!
