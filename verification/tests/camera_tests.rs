//! Fly-camera and orientation-filter behaviour.

use hyako::camera::{OrientationFilter, Pitch, Yaw, PITCH_CLAMP_FP};
use hyako::camera_controller::{Camera, CameraController, KeyCode};
use hyako::vec3::Vec3;

fn create_test_camera() -> Camera {
    Camera::new(
        Vec3::new(0, 0, 10_000_000), // eye (far enough to avoid boundary conditions)
        Vec3::new(0, 0, 0),          // target
        Vec3::new(0, 1_000_000, 0),  // up
        1_777_778,                   // aspect: 16 / 9
        785_398,                     // fovy: 45 degrees in radians
        100_000,                     // znear
        100_000_000,                 // zfar
    )
}

#[test]
fn test_new_controller_has_correct_initial_state() {
    let controller = CameraController::new(5_000_000);

    assert_eq!(controller.speed, 5_000_000);
    assert_eq!(controller.is_forward_pressed, false);
    assert_eq!(controller.is_backward_pressed, false);
    assert_eq!(controller.is_left_pressed, false);
    assert_eq!(controller.is_right_pressed, false);
}

#[test]
fn test_handle_key_w_sets_forward_pressed() {
    let mut controller = CameraController::new(5_000_000);

    let handled = controller.handle_key(KeyCode::KeyW, true);

    assert!(handled);
    assert!(controller.is_forward_pressed);
}

#[test]
fn test_handle_key_arrow_up_sets_forward_pressed() {
    let mut controller = CameraController::new(5_000_000);

    let handled = controller.handle_key(KeyCode::ArrowUp, true);

    assert!(handled);
    assert!(controller.is_forward_pressed);
}

#[test]
fn test_handle_key_s_sets_backward_pressed() {
    let mut controller = CameraController::new(5_000_000);

    let handled = controller.handle_key(KeyCode::KeyS, true);

    assert!(handled);
    assert!(controller.is_backward_pressed);
}

#[test]
fn test_handle_key_arrow_down_sets_backward_pressed() {
    let mut controller = CameraController::new(5_000_000);

    let handled = controller.handle_key(KeyCode::ArrowDown, true);

    assert!(handled);
    assert!(controller.is_backward_pressed);
}

#[test]
fn test_handle_key_a_sets_left_pressed() {
    let mut controller = CameraController::new(5_000_000);

    let handled = controller.handle_key(KeyCode::KeyA, true);

    assert!(handled);
    assert!(controller.is_left_pressed);
}

#[test]
fn test_handle_key_arrow_left_sets_left_pressed() {
    let mut controller = CameraController::new(5_000_000);

    let handled = controller.handle_key(KeyCode::ArrowLeft, true);

    assert!(handled);
    assert!(controller.is_left_pressed);
}

#[test]
fn test_handle_key_d_sets_right_pressed() {
    let mut controller = CameraController::new(5_000_000);

    let handled = controller.handle_key(KeyCode::KeyD, true);

    assert!(handled);
    assert!(controller.is_right_pressed);
}

#[test]
fn test_handle_key_arrow_right_sets_right_pressed() {
    let mut controller = CameraController::new(5_000_000);

    let handled = controller.handle_key(KeyCode::ArrowRight, true);

    assert!(handled);
    assert!(controller.is_right_pressed);
}

#[test]
fn test_handle_key_release_clears_state() {
    let mut controller = CameraController::new(5_000_000);

    controller.handle_key(KeyCode::KeyW, true);
    assert!(controller.is_forward_pressed);

    controller.handle_key(KeyCode::KeyW, false);
    assert!(!controller.is_forward_pressed);
}

#[test]
fn test_handle_key_unhandled_key_returns_false() {
    let mut controller = CameraController::new(5_000_000);

    let handled = controller.handle_key(KeyCode::Space, true);

    assert!(!handled);
}

#[test]
fn test_update_camera_forward_movement() {
    let mut controller = CameraController::new(5_000_000);
    let mut camera = create_test_camera();
    let initial_eye = camera.eye;

    controller.handle_key(KeyCode::KeyW, true);
    controller.update_camera(&mut camera, 1_000_000);

    // Camera should move toward target (negative Z direction)
    assert!(camera.eye.z < initial_eye.z);
}

#[test]
fn test_update_camera_backward_movement() {
    let mut controller = CameraController::new(5_000_000);
    let mut camera = create_test_camera();
    let initial_eye = camera.eye;

    controller.handle_key(KeyCode::KeyS, true);
    controller.update_camera(&mut camera, 1_000_000);

    // Camera should move away from target (positive Z direction)
    assert!(camera.eye.z > initial_eye.z);
}

#[test]
fn test_update_camera_left_strafe() {
    let mut controller = CameraController::new(5_000_000);
    let mut camera = create_test_camera();
    let initial_eye = camera.eye;

    controller.handle_key(KeyCode::KeyA, true);
    controller.update_camera(&mut camera, 1_000_000);

    // Camera should move left (positive X direction when looking at origin)
    assert!(camera.eye.x > initial_eye.x);
}

#[test]
fn test_update_camera_right_strafe() {
    let mut controller = CameraController::new(5_000_000);
    let mut camera = create_test_camera();
    let initial_eye = camera.eye;

    controller.handle_key(KeyCode::KeyD, true);
    controller.update_camera(&mut camera, 10_000_000);
    // Camera should move right (negative X direction when looking at origin)
    assert!(camera.eye.x < initial_eye.x);
}

#[test]
fn test_update_camera_respects_delta_time() {
    let mut controller = CameraController::new(5_000_000);
    let mut camera1 = create_test_camera();
    let mut camera2 = create_test_camera();

    controller.handle_key(KeyCode::KeyW, true);

    controller.update_camera(&mut camera1, 100_000);
    controller.update_camera(&mut camera2, 200_000);

    // camera2 should have moved twice as far as camera1
    let start = Vec3::new(0, 0, 10_000_000);
    let distance1 = camera1.eye.sub(start).length();
    let distance2 = camera2.eye.sub(start).length();

    assert!((distance2 - distance1 * 2).abs() < 1000);
}

#[test]
fn test_update_camera_no_movement_when_no_keys_pressed() {
    let mut controller = CameraController::new(5_000_000);
    let mut camera = create_test_camera();
    let initial_eye = camera.eye;

    controller.update_camera(&mut camera, 1_000_000);

    assert_eq!(camera.eye, initial_eye);
}

#[test]
fn test_update_camera_forward_stops_when_too_close_to_target() {
    let mut controller = CameraController::new(100_000_000);
    let mut camera = Camera::new(
        Vec3::new(0, 0, 100_000), // very close to target
        Vec3::new(0, 0, 0),
        Vec3::new(0, 1_000_000, 0),
        1_777_778,
        785_398,
        100_000,
        100_000_000,
    );
    let initial_eye = camera.eye;

    controller.handle_key(KeyCode::KeyW, true);
    controller.update_camera(&mut camera, 1_000_000);

    // Camera should not move because forward_mag <= speed
    assert_eq!(camera.eye, initial_eye);
}

#[test]
fn test_update_camera_maintains_distance_from_target_during_strafe() {
    let mut controller = CameraController::new(5_000_000);
    let mut camera = create_test_camera();
    let initial_distance = camera.eye.sub(camera.target).length();

    controller.handle_key(KeyCode::KeyA, true);
    controller.update_camera(&mut camera, 100_000);

    let final_distance = camera.eye.sub(camera.target).length();

    // Distance should be approximately the same (within fixed-point tolerance)
    assert!((initial_distance - final_distance).abs() < 1000);
}

#[test]
fn test_yaw_add_positive_delta() {
    let mut yaw = Yaw::new(0);
    let initial_value = yaw.value;

    // Add positive delta with smoothing factor 0.5
    // one_minus_smoothing = 1.0 - 0.5 = 0.5
    yaw.add(10_000_000, 500_000, 500_000);

    // First add: smoothed_delta = 0.0 * 0.5 + 10.0 * 0.5 = 5.0
    // value = 0.0 + 5.0 = 5.0
    assert!(
        yaw.value > initial_value,
        "Yaw should increase with positive delta. Initial: {}, New: {}",
        initial_value,
        yaw.value
    );
    assert_eq!(yaw.value, 5_000_000, "Yaw should be 5.0 after first smoothed add");
}

#[test]
fn test_yaw_add_negative_delta() {
    let mut yaw = Yaw::new(0);
    let initial_value = yaw.value;

    // Add negative delta with smoothing factor 0.5
    yaw.add(-10_000_000, 500_000, 500_000);

    // First add: smoothed_delta = 0.0 * 0.5 + (-10.0) * 0.5 = -5.0
    // value = 0.0 + (-5.0) = -5.0
    assert!(
        yaw.value < initial_value,
        "Yaw should decrease with negative delta. Initial: {}, New: {}",
        initial_value,
        yaw.value
    );
    assert_eq!(yaw.value, -5_000_000, "Yaw should be -5.0 after first smoothed add");
}

#[test]
fn test_pitch_add_positive_delta() {
    let mut pitch = Pitch::new(0);
    let initial_value = pitch.value;

    // Add positive delta with smoothing factor 0.5
    // Pitch uses subtraction (inverted Y-axis)
    pitch.add(2_000_000, 500_000, 500_000);

    // First add: smoothed_delta = 0.0 * 0.5 + 2.0 * 0.5 = 1.0
    // value = 0.0 - 1.0 = -1.0 (subtraction for inverted Y-axis)
    assert!(
        pitch.value < initial_value,
        "Pitch should decrease with positive delta (inverted Y). Initial: {}, New: {}",
        initial_value,
        pitch.value
    );
    assert_eq!(pitch.value, -1_000_000, "Pitch should be -1.0 after first smoothed add");
}

#[test]
fn test_pitch_add_negative_delta() {
    let mut pitch = Pitch::new(0);
    let initial_value = pitch.value;

    // Add negative delta with smoothing factor 0.5
    // Pitch uses subtraction (inverted Y-axis)
    pitch.add(-2_000_000, 500_000, 500_000);

    // First add: smoothed_delta = 0.0 * 0.5 + (-2.0) * 0.5 = -1.0
    // value = 0.0 - (-1.0) = 1.0 (subtracting negative = addition)
    assert!(
        pitch.value > initial_value,
        "Pitch should increase with negative delta (inverted Y). Initial: {}, New: {}",
        initial_value,
        pitch.value
    );
    assert_eq!(pitch.value, 1_000_000, "Pitch should be 1.0 after first smoothed add");
}

#[test]
fn pitch_never_leaves_clamp_under_extreme_input() {
    // A hundred wild downward swipes, then a hundred upward ones.
    let mut pitch = Pitch::new(0);
    for _ in 0..100 {
        pitch.add(1_000_000_000, 500_000, 500_000); // dy = +1000
        assert!(-PITCH_CLAMP_FP <= pitch.value && pitch.value <= PITCH_CLAMP_FP);
    }
    for _ in 0..100 {
        pitch.add(-1_000_000_000, 500_000, 500_000); // dy = -1000
        assert!(-PITCH_CLAMP_FP <= pitch.value && pitch.value <= PITCH_CLAMP_FP);
    }
}

#[test]
fn filter_pitch_stays_clamped_through_rotate() {
    let mut filter = OrientationFilter::new(0, 0, 1_000_000, 500_000);
    for _ in 0..100 {
        filter.rotate(0, 1_000_000_000, true, true);
        assert!(-PITCH_CLAMP_FP <= filter.pitch.value && filter.pitch.value <= PITCH_CLAMP_FP);
    }
}

#[test]
fn filter_rotate_is_gated_on_button_and_window() {
    let mut filter = OrientationFilter::new(0, 0, 1_000_000, 500_000);
    filter.rotate(10_000_000, 10_000_000, false, true);
    filter.rotate(10_000_000, 10_000_000, true, false);
    filter.rotate(10_000_000, 10_000_000, false, false);
    assert_eq!(filter.yaw.value, 0);
    assert_eq!(filter.pitch.value, 0);

    filter.rotate(10_000_000, 0, true, true);
    assert_eq!(filter.yaw.value, 5_000_000);
}

#[test]
fn yaw_unwraps_past_half_a_turn() {
    // Just past pi, the next step subtracts a full turn instead of adding.
    let mut yaw = Yaw::new(3_141_594);
    yaw.add(1_000_000, 500_000, 500_000);
    assert_eq!(yaw.value, 3_141_594 - 6_283_185);
    // The remembered delta still updated.
    assert_eq!(yaw.previous_delta, 500_000);
}

#[test]
fn controller_direction_follows_the_filter() {
    let controller = CameraController::new(5_000_000);
    let dir = controller.direction();
    // Level and straight ahead: the unit X axis.
    assert!((dir.x - 1_000_000).abs() < 1000);
    assert!(dir.y.abs() < 1000);
    assert!(dir.z.abs() < 1000);
}
