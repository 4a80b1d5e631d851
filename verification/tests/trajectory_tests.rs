//! Linear, stationary and direction-vector behaviour, on fixed-point
//! values: one unit is 1_000_000.

use hyako::handle::TransformHandle;
use hyako::trajectory::{calculate_direction_vector, Direction};
use hyako::trajectory::linear::LinearTrajectory;
use hyako::trajectory::stationary::StationaryTrajectory;
use hyako::transform::Transform;
use hyako::vec3::Vec3;

fn rad_fp(degrees: f64) -> i64 {
    (degrees.to_radians() * 1_000_000.0).round() as i64
}

#[test]
fn test_linear_trajectory_forward_movement() {
    let transform = TransformHandle::new(Transform::default());
    let start_pos = Vec3::new(0, 0, 0);
    let mut trajectory = LinearTrajectory::new_deconstructed_mesh(
        "Test".to_string(),
        transform.clone(),
        start_pos,
        0,          // yaw: move along X axis
        0,          // pitch: no vertical component
        10_000_000, // distance: 10 units
        5_000_000,  // speed: 5 units per second
        false,      // not looping
        true,
    )
    .unwrap();

    // Simulate 1 second of movement
    trajectory.animate(None, 1_000_000).unwrap();

    // After 1 second at 5 units/sec over 10 units distance, progress should be 0.5
    assert!((trajectory.progress - 500_000).abs() < 1000);

    // Position should be halfway along the path
    let pos = transform.read_transform().position;
    assert!((pos.x - 5_000_000).abs() < 1000);
}

#[test]
fn test_linear_trajectory_bounce_at_boundaries() {
    let transform = TransformHandle::new(Transform::default());
    let start_pos = Vec3::new(0, 0, 0);
    let mut trajectory = LinearTrajectory::new_deconstructed_mesh(
        "Test1".to_string(),
        transform.clone(),
        start_pos,
        rad_fp(90.0), // yaw
        rad_fp(0.0),  // pitch
        4_000_000,    // distance: 4 units
        2_000_000,    // speed: 2 units per second
        true,         // looping enabled
        true,
    )
    .unwrap();

    // Animate forward to boundary (2 seconds to reach end)
    trajectory.animate(None, 3_500_000).unwrap();

    // Should have bounced back and changed direction
    assert_eq!(trajectory.direction, Direction::BACKWARDS);
    assert!(trajectory.progress <= 1_000_000, "{:?}", trajectory.progress);

    // Continue backward past start
    trajectory.animate(None, 5_000_000).unwrap();

    // Should bounce forward again
    assert_eq!(trajectory.direction, Direction::FORWARDS);
    assert!(trajectory.progress >= -1_000_000);
}

#[test]
fn test_linear_trajectory_reset() {
    let transform = TransformHandle::new(Transform::default());
    let start_pos = Vec3::new(5_000_000, 10_000_000, -3_000_000);
    let mut trajectory = LinearTrajectory::new_deconstructed_mesh(
        "Test".to_string(),
        transform.clone(),
        start_pos,
        45_000_000,
        0,
        8_000_000,
        4_000_000,
        true,
        true,
    )
    .unwrap();

    // Move the trajectory
    trajectory.animate(None, 1_000_000).unwrap();
    assert!(trajectory.progress > 0);

    // Reset
    trajectory.reset();

    // Check state is reset
    assert_eq!(trajectory.progress, 0);
    assert_eq!(trajectory.direction, Direction::FORWARDS);

    let pos = transform.read_transform().position;
    assert_eq!(pos, start_pos);
}

#[test]
fn test_direction_vector_zero_angles() {
    let dir = calculate_direction_vector(0, 0);
    assert!((dir.x - 1_000_000).abs() < 1000);
    assert!(dir.y.abs() < 1000);
    assert!(dir.z.abs() < 1000);
}

#[test]
fn test_direction_vector_90_yaw() {
    let dir = calculate_direction_vector(rad_fp(90.0), 0);
    assert!(dir.x.abs() < 1000);
    assert!((dir.z - 1_000_000).abs() < 1000);
    assert!(dir.y.abs() < 1000);
}

#[test]
fn test_direction_vector_90_pitch() {
    let dir = calculate_direction_vector(0, rad_fp(90.0));
    assert!(dir.x.abs() < 1000);
    assert!(dir.z.abs() < 1000);
    assert!((dir.y - 1_000_000).abs() < 1000);
}

#[test]
fn test_direction_vector_90_pitch_90_yaw() {
    let dir = calculate_direction_vector(rad_fp(90.0), rad_fp(90.0));
    assert!(dir.x.abs() < 1000, "x: {:?} < 1000", dir.x.abs());
    assert!(dir.z.abs() < 1000, "z: {:?} < 1000", dir.z.abs());
    assert!((dir.y - 1_000_000).abs() < 1000, "y: {:?} - 1000000 < 1000", dir.y.abs());
}

#[test]
fn test_stationary_trajectory_creation() {
    let _trajectory = StationaryTrajectory {};
    // Just verify it can be created
}

#[test]
fn test_stationary_trajectory_animate_returns_ok() {
    let mut trajectory = StationaryTrajectory {};
    let result = trajectory.animate(None, 1_000_000);
    assert!(result.is_ok());

    // Also test with a target transform
    let target = Transform::default();
    let result = trajectory.animate(Some(&target), 500_000);
    assert!(result.is_ok());
}

#[test]
fn test_stationary_trajectory_reset_does_nothing() {
    let mut trajectory = StationaryTrajectory {};

    // Reset should not panic or fail
    trajectory.reset();

    // Should still be able to animate after reset
    let result = trajectory.animate(None, 1_000_000);
    assert!(result.is_ok());
}

#[test]
fn linear_rejects_zero_distance() {
    let transform = TransformHandle::new(Transform::default());
    let r = LinearTrajectory::new_deconstructed_mesh(
        "Bad".to_string(),
        transform,
        Vec3::new(0, 0, 0),
        0,
        0,
        0,
        5_000_000,
        false,
        false,
    );
    assert_eq!(r.err(), Some(hyako::error::MotionError::InvalidParameters));
}

#[test]
fn linear_rejects_zero_speed() {
    let transform = TransformHandle::new(Transform::default());
    let r = LinearTrajectory::new_deconstructed_mesh(
        "Bad".to_string(),
        transform,
        Vec3::new(0, 0, 0),
        0,
        0,
        10_000_000,
        0,
        false,
        false,
    );
    assert_eq!(r.err(), Some(hyako::error::MotionError::InvalidParameters));
}

#[test]
fn linear_hard_loop_snaps_back_to_start() {
    let transform = TransformHandle::new(Transform::default());
    let start_pos = Vec3::new(1_000_000, 2_000_000, 3_000_000);
    let mut trajectory = LinearTrajectory::new_deconstructed_mesh(
        "Loop".to_string(),
        transform.clone(),
        start_pos,
        0,
        0,
        2_000_000, // distance: 2 units
        2_000_000, // speed: 2 units per second
        true,      // looping
        false,     // not reversing: a hard loop
    )
    .unwrap();

    // One second reaches the far end exactly; the hard loop snaps back.
    trajectory.animate(None, 1_000_000).unwrap();
    assert_eq!(trajectory.progress, 0);
    assert_eq!(trajectory.direction, Direction::FORWARDS);
    assert_eq!(transform.read_transform().position, start_pos);
}

#[test]
fn linear_reset_is_idempotent() {
    let transform = TransformHandle::new(Transform::default());
    let mut trajectory = LinearTrajectory::new_deconstructed_mesh(
        "Twice".to_string(),
        transform.clone(),
        Vec3::new(0, 0, 0),
        0,
        0,
        4_000_000,
        1_000_000,
        true,
        true,
    )
    .unwrap();
    trajectory.animate(None, 1_500_000).unwrap();
    trajectory.reset();
    let once = (trajectory.progress, trajectory.direction, transform.read_transform());
    trajectory.reset();
    let twice = (trajectory.progress, trajectory.direction, transform.read_transform());
    assert_eq!(once, twice);
}
