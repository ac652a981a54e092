//! Tests for the protocol handler, the boundary commands and the orbit
//! camera.

use offscreen_pipeline::camera::{
    send_mouse_input, take_mouse_input, update_camera_from_input, MouseInput, OrbitCameraState,
};
use offscreen_pipeline::commands::{get_frame, get_render_size, FrameError};
use offscreen_pipeline::config::{MAX_DISTANCE_MICRO, MIN_DISTANCE_MICRO, MIN_PITCH_MICRO};
use offscreen_pipeline::encode::rgba_to_rgb;
use offscreen_pipeline::protocol::{
    handle_frame_protocol, resolve_resource, str_eq, trim_leading_slashes, RequestOutcome,
    Resource,
};
use offscreen_pipeline::slot::FrameSlot;
use offscreen_pipeline::stats::{get_performance_stats, PerformanceStats};

#[test]
fn str_eq_compares_characters() {
    assert!(str_eq("frame", "frame"));
    assert!(!str_eq("frame", "frame.jpg"));
    assert!(!str_eq("frame", ""));
    assert!(str_eq("", ""));
}

#[test]
fn trim_removes_leading_slashes_only() {
    assert_eq!(trim_leading_slashes("/frame"), "frame");
    assert_eq!(trim_leading_slashes("///stats"), "stats");
    assert_eq!(trim_leading_slashes("frame.raw"), "frame.raw");
    assert_eq!(trim_leading_slashes("/a/b"), "a/b");
    assert_eq!(trim_leading_slashes(""), "");
}

#[test]
fn resource_names_resolve() {
    assert_eq!(resolve_resource("frame"), Resource::Jpeg);
    assert_eq!(resolve_resource("/frame.jpg"), Resource::Jpeg);
    assert_eq!(resolve_resource("/frame.raw"), Resource::Raw);
    assert_eq!(resolve_resource("stats"), Resource::Stats);
    assert_eq!(resolve_resource("/frame.png"), Resource::Unknown);
    assert_eq!(resolve_resource(""), Resource::Unknown);
}

#[test]
fn frame_resources_not_ready_while_slot_empty() {
    let slot = FrameSlot::new(2, 2);
    let stats = PerformanceStats::default();
    assert!(matches!(
        handle_frame_protocol("/frame", &slot, &stats),
        RequestOutcome::NotReady
    ));
    assert!(matches!(
        handle_frame_protocol("/frame.raw", &slot, &stats),
        RequestOutcome::NotReady
    ));
}

#[test]
fn unknown_resource_not_found() {
    let slot = FrameSlot::new(2, 2);
    let stats = PerformanceStats::default();
    assert!(matches!(
        handle_frame_protocol("/nope", &slot, &stats),
        RequestOutcome::NotFound
    ));
}

#[test]
fn raw_resource_returns_slot_bytes_verbatim() {
    let mut slot = FrameSlot::new(2, 2);
    let bytes: Vec<u8> = (0..16u8).collect();
    slot.publish(bytes.clone());
    let stats = PerformanceStats::default();
    match handle_frame_protocol("/frame.raw", &slot, &stats) {
        RequestOutcome::Raw { data, width, height } => {
            assert_eq!(data, bytes);
            assert_eq!((width, height), (2, 2));
        }
        other => panic!("expected a raw frame, got {:?}", other),
    }
}

#[test]
fn jpeg_resource_encodes_a_decodable_image() {
    let mut slot = FrameSlot::new(2, 2);
    // Four opaque pixels: red, green, blue, white.
    slot.publish(vec![
        255, 0, 0, 255, 0, 255, 0, 255, 0, 0, 255, 255, 255, 255, 255, 255,
    ]);
    let stats = PerformanceStats::default();
    match handle_frame_protocol("/frame", &slot, &stats) {
        RequestOutcome::Jpeg { data, width, height } => {
            assert_eq!((width, height), (2, 2));
            // JPEG start-of-image marker, and a real decodable payload.
            assert_eq!(&data[..2], &[0xFF, 0xD8]);
            let decoded = image::load_from_memory(&data).unwrap();
            assert_eq!((decoded.width(), decoded.height()), (2, 2));
        }
        other => panic!("expected a jpeg frame, got {:?}", other),
    }
}

#[test]
fn jpeg_resource_rejects_undecodable_dimensions() {
    let mut slot = FrameSlot::new(0, 0);
    slot.publish(Vec::new());
    let stats = PerformanceStats::default();
    assert!(matches!(
        handle_frame_protocol("/frame", &slot, &stats),
        RequestOutcome::EncodeFailed
    ));
}

#[test]
fn stats_resource_returns_snapshot() {
    let slot = FrameSlot::new(2, 2);
    let mut stats = PerformanceStats::default();
    stats.frame_count = 7;
    stats.data_size_bytes = 16;
    match handle_frame_protocol("stats", &slot, &stats) {
        RequestOutcome::Stats { stats: s } => {
            assert_eq!(s, stats);
        }
        other => panic!("expected stats, got {:?}", other),
    }
    assert_eq!(get_performance_stats(&stats), stats);
}

#[test]
fn rgba_to_rgb_drops_alpha_bytes() {
    let rgb = rgba_to_rgb(&vec![1, 2, 3, 200, 4, 5, 6, 201]);
    assert_eq!(rgb, vec![1, 2, 3, 4, 5, 6]);
}

#[test]
fn get_frame_encodes_base64() {
    let mut slot = FrameSlot::new(1, 1);
    slot.publish(vec![1, 2, 3, 4]);
    let mut stats = PerformanceStats::default();
    let r = get_frame(&slot, &mut stats).unwrap();
    assert_eq!(r.data, "AQIDBA==");
    assert_eq!((r.width, r.height), (1, 1));
}

#[test]
fn get_frame_not_ready_on_empty_slot() {
    let slot = FrameSlot::new(1, 1);
    let mut stats = PerformanceStats::default();
    let before = stats;
    let r = get_frame(&slot, &mut stats);
    assert!(matches!(r, Err(FrameError::NotReady)));
    assert_eq!(stats, before);
}

#[test]
fn render_size_is_configured_resolution() {
    assert_eq!(get_render_size(), (800, 600));
}

#[test]
fn mouse_input_accumulates_and_overwrites_buttons() {
    let mut acc = MouseInput::default();
    send_mouse_input(&mut acc, 1000, 2000, 500, true, false);
    send_mouse_input(&mut acc, 500, -500, 100, false, true);
    assert_eq!(acc.delta_x_milli, 1500);
    assert_eq!(acc.delta_y_milli, 1500);
    assert_eq!(acc.scroll_delta_milli, 600);
    assert!(!acc.left_button);
    assert!(acc.right_button);
    let taken = take_mouse_input(&mut acc);
    assert_eq!(taken.delta_x_milli, 1500);
    assert_eq!(acc.delta_x_milli, 0);
    assert_eq!(acc.delta_y_milli, 0);
    assert_eq!(acc.scroll_delta_milli, 0);
    assert!(acc.right_button);
}

#[test]
fn drag_rotates_and_zeroes_accumulator() {
    let mut orbit = OrbitCameraState::default();
    let mut acc = MouseInput::default();
    // One pixel right: yaw moves by -0.005 radians (5000 micro).
    send_mouse_input(&mut acc, 1000, 0, 0, true, false);
    update_camera_from_input(&mut orbit, &mut acc);
    assert_eq!(orbit.yaw_micro, -5000);
    assert_eq!(orbit.pitch_micro, 400_000);
    assert_eq!(orbit.distance_micro, 6_500_000);
    assert_eq!(acc.delta_x_milli, 0);
}

#[test]
fn extreme_drag_keeps_pitch_clamped() {
    let mut orbit = OrbitCameraState::default();
    let mut acc = MouseInput::default();
    send_mouse_input(&mut acc, 0, i64::MAX, 0, true, false);
    update_camera_from_input(&mut orbit, &mut acc);
    assert_eq!(orbit.pitch_micro, MIN_PITCH_MICRO);
    send_mouse_input(&mut acc, 0, i64::MIN, 0, true, false);
    update_camera_from_input(&mut orbit, &mut acc);
    assert_eq!(orbit.pitch_micro, offscreen_pipeline::config::MAX_PITCH_MICRO);
}

#[test]
fn scroll_zooms_within_distance_clamp() {
    let mut orbit = OrbitCameraState::default();
    let mut acc = MouseInput::default();
    // Ten pixels of scroll: distance shrinks by 5 units and clamps at 2.
    send_mouse_input(&mut acc, 0, 0, 10_000, false, false);
    update_camera_from_input(&mut orbit, &mut acc);
    assert_eq!(orbit.distance_micro, MIN_DISTANCE_MICRO);
    send_mouse_input(&mut acc, 0, 0, -1_000_000, false, false);
    update_camera_from_input(&mut orbit, &mut acc);
    assert_eq!(orbit.distance_micro, MAX_DISTANCE_MICRO);
}

#[test]
fn zero_input_leaves_pose_unchanged() {
    let mut orbit = OrbitCameraState::default();
    let before = orbit;
    let mut acc = MouseInput::default();
    update_camera_from_input(&mut orbit, &mut acc);
    assert_eq!(orbit, before);
    // Buttons held but no movement: still no drift.
    send_mouse_input(&mut acc, 0, 0, 0, true, true);
    update_camera_from_input(&mut orbit, &mut acc);
    assert_eq!(orbit, before);
}
