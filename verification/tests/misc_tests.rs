//! Identifier, mouse-state and utility behaviour, and the orbit scenario.

use hyako::animator::circular::CircularTrajectory;
use hyako::handle::TransformHandle;
use hyako::ids::{MeshId, UniformBufferId, UniformResourceId};
use hyako::mouse::{MouseAction, MouseButton, MouseDelta, MouseState, MovementDelta, MousePosition};
use hyako::transform::Transform;
use hyako::types::{clamp_frame_delta, Id, LightType, MAX_FRAME_DELTA};
use hyako::util::{Concatable, Size};
use hyako::fixed::{clamp_fp, div_fp, mul_fp};
use hyako::key_bindings::MoveAction;

#[test]
fn uniform_buffer_id_round_trip() {
    let id = UniformBufferId::new("Camera".to_string());
    assert_eq!(id.get_id(), "Camera");
    assert_eq!(id.get(), "Camera");
    assert_eq!(id.id, "Camera");
}

#[test]
fn mesh_id_exposes_its_string() {
    let id = MeshId("Suzanne_0".to_string());
    assert_eq!(id.get_id(), "Suzanne_0");
    assert_eq!(id.0, "Suzanne_0");
}

#[test]
fn mouse_state_keeps_button_and_action() {
    let state = MouseState::new(MouseButton::LEFT, MouseAction::CLICKED);
    assert!(matches!(state.get_button(), MouseButton::LEFT));
    assert_eq!(*state.get_action(), MouseAction::CLICKED);
}

#[test]
fn mouse_delta_window_flag_round_trips() {
    let mut delta = MouseDelta::default();
    assert!(!delta.is_mouse_on_window());
    delta.set_is_mouse_on_window(true);
    assert!(delta.is_mouse_on_window());
}

#[test]
fn movement_delta_and_position_accessors() {
    let d = MovementDelta::new(3_000_000, -2_000_000);
    assert_eq!(d.x(), 3_000_000);
    assert_eq!(d.y(), -2_000_000);
    let p = MousePosition::new(640_000_000, 360_000_000);
    assert_eq!(p.x(), 640_000_000);
    assert_eq!(p.y(), 360_000_000);
}

#[test]
fn string_concat_appends_in_place() {
    let mut s = "Vertex Buffer: ".to_string();
    let shown = s.concat("Suzanne").to_string();
    assert_eq!(shown, "Vertex Buffer: Suzanne");
    assert_eq!(s, "Vertex Buffer: Suzanne");
}

#[test]
fn size_holds_width_and_height() {
    let size = Size { width: 1920, height: 1080 };
    assert_eq!(size.width, 1920);
    assert_eq!(size.height, 1080);
}

#[test]
fn light_type_distinguishes_lit_and_unlit() {
    assert_ne!(LightType::LIGHT, LightType::NO_LIGHT);
    assert_eq!(LightType::LIGHT.clone(), LightType::LIGHT);
}

#[test]
fn frame_delta_is_clamped_to_the_maximum() {
    assert_eq!(clamp_frame_delta(16_000), 16_000);
    assert_eq!(clamp_frame_delta(1_000_000), MAX_FRAME_DELTA);
    assert_eq!(clamp_frame_delta(MAX_FRAME_DELTA), MAX_FRAME_DELTA);
}

#[test]
fn orbit_scenario_radius_five_speed_one_hundred() {
    // radius 5, angular speed 100: the first frame writes (5, 0, 0).
    let transform = TransformHandle::new(Transform::default());
    let mut orbit = CircularTrajectory::new_deconstructed_mesh(
        MeshId("orbit".to_string()),
        transform.clone(),
        5_000_000,
        100_000_000,
    )
    .unwrap();
    orbit.animate(None, 0).unwrap();
    let pos = transform.read_transform().position;
    assert!((pos.x - 5_000_000).abs() < 1000);
    assert!(pos.z.abs() < 1000);

    // A tenth of a second later the angle has strictly increased and the
    // written point is still on the radius-five circle.
    let before = orbit.angle;
    orbit.animate(None, 100_000).unwrap();
    assert!(orbit.angle > before);
    orbit.animate(None, 0).unwrap();
    let pos = transform.read_transform().position;
    let d = ((pos.x as f64).powi(2) + (pos.z as f64).powi(2)).sqrt();
    assert!((d - 5_000_000.0).abs() < 1000.0);
}

#[test]
fn fixed_point_scalar_arithmetic() {
    assert_eq!(mul_fp(2_000_000, 3_000_000), 6_000_000);
    assert_eq!(mul_fp(-2_000_000, 3_000_000), -6_000_000);
    assert_eq!(mul_fp(1_500_000, 1_500_000), 2_250_000);
    assert_eq!(div_fp(5_000_000, 2_000_000), 2_500_000);
    assert_eq!(div_fp(-5_000_000, 2_000_000), -2_500_000);
    assert_eq!(clamp_fp(1_700_000, -1_000_000, 1_000_000), 1_000_000);
    assert_eq!(clamp_fp(-1_700_000, -1_000_000, 1_000_000), -1_000_000);
    assert_eq!(clamp_fp(300_000, -1_000_000, 1_000_000), 300_000);
}

#[test]
fn move_actions_are_distinct() {
    let all = [
        MoveAction::FORWARDS,
        MoveAction::BACKWARDS,
        MoveAction::LEFT,
        MoveAction::RIGHT,
    ];
    for i in 0..all.len() {
        for j in 0..all.len() {
            assert_eq!(i == j, all[i] == all[j]);
        }
    }
}
