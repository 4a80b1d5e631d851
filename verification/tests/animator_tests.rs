//! Playback-controller behaviour.  A linear strategy with speed equal to
//! distance makes every delivered delta observable: each played frame adds
//! exactly its effective delta to the progress.

use hyako::animator::{Animator, MotionStrategy, NEUTRAL_SPEED};
use hyako::animator::circular::CircularTrajectory;
use hyako::animator::stationary::StationaryTrajectory;
use hyako::handle::TransformHandle;
use hyako::ids::MeshId;
use hyako::trajectory::linear::LinearTrajectory;
use hyako::transform::Transform;
use hyako::vec3::Vec3;

/// A strategy whose progress mirrors the summed effective deltas.
fn observable_strategy() -> (MotionStrategy, TransformHandle) {
    let transform = TransformHandle::new(Transform::default());
    let lin = LinearTrajectory::new_deconstructed_mesh(
        "test_animator".to_string(),
        transform.clone(),
        Vec3::new(0, 0, 0),
        0,
        0,
        1_000_000,
        1_000_000,
        false,
        false,
    )
    .unwrap();
    (MotionStrategy::Linear(lin), transform)
}

fn progress_of(animator: &Animator) -> i64 {
    match &animator.animation {
        MotionStrategy::Linear(l) => l.progress,
        _ => panic!("expected a linear strategy"),
    }
}

#[test]
fn test_time_accumulation_single_frame() {
    let (strategy, _) = observable_strategy();
    let mut animator = Animator::new(NEUTRAL_SPEED, strategy).unwrap();

    animator.play(16_000).unwrap();

    assert_eq!(animator.get_elapsed_time(), 16_000);
}

#[test]
fn test_time_accumulation_multiple_frames() {
    let (strategy, _) = observable_strategy();
    let mut animator = Animator::new(NEUTRAL_SPEED, strategy).unwrap();

    animator.play(16_000).unwrap();
    animator.play(16_000).unwrap();
    animator.play(20_000).unwrap();

    assert!((animator.get_elapsed_time() - 52_000).abs() < 100);
}

#[test]
fn test_time_does_not_accumulates_when_paused() {
    let (strategy, _) = observable_strategy();
    let mut animator = Animator::new(NEUTRAL_SPEED, strategy).unwrap();

    animator.play(16_000).unwrap();
    animator.pause();
    animator.play(16_000).unwrap();

    assert!((animator.get_elapsed_time() - 32_000).abs() < 17_000);
}

#[test]
fn test_pause_stops_animation() {
    let (strategy, _) = observable_strategy();
    let mut animator = Animator::new(NEUTRAL_SPEED, strategy).unwrap();

    animator.play(16_000).unwrap();
    assert_eq!(progress_of(&animator), 16_000);

    animator.pause();
    animator.play(16_000).unwrap();

    // The strategy saw only the first frame because the second was paused.
    assert_eq!(progress_of(&animator), 16_000);
}

#[test]
fn test_resume_continues_animation() {
    let (strategy, _) = observable_strategy();
    let mut animator = Animator::new(NEUTRAL_SPEED, strategy).unwrap();

    animator.play(16_000).unwrap();
    animator.pause();
    animator.play(16_000).unwrap();
    assert_eq!(progress_of(&animator), 16_000);

    animator.resume();
    animator.play(16_000).unwrap();

    assert_eq!(progress_of(&animator), 32_000);
}

#[test]
fn test_starts_playing_by_default() {
    let (strategy, _) = observable_strategy();
    let mut animator = Animator::new(NEUTRAL_SPEED, strategy).unwrap();

    assert_eq!(animator.is_currently_playing, true);
    animator.play(16_000).unwrap();
    assert_eq!(progress_of(&animator), 16_000);
}

#[test]
fn test_speed_multiplier_neutral() {
    let (strategy, _) = observable_strategy();
    let mut animator = Animator::new(NEUTRAL_SPEED, strategy).unwrap();

    animator.play(16_000).unwrap();

    // One frame delivered, with its delta unchanged.
    assert!((progress_of(&animator) - 16_000).abs() < 100);
}

#[test]
fn test_speed_multiplier_double() {
    let (strategy, _) = observable_strategy();
    let mut animator = Animator::new(2_000_000, strategy).unwrap();

    animator.play(16_000).unwrap();

    assert!((progress_of(&animator) - 32_000).abs() < 100); // 16000 * 2.0
}

#[test]
fn test_speed_multiplier_half() {
    let (strategy, _) = observable_strategy();
    let mut animator = Animator::new(500_000, strategy).unwrap();

    animator.play(16_000).unwrap();

    assert!((progress_of(&animator) - 8_000).abs() < 100); // 16000 * 0.5
}

#[test]
fn test_speed_multiplier_preserved_across_calls() {
    let (strategy, _) = observable_strategy();
    let mut animator = Animator::new(3_000_000, strategy).unwrap();

    animator.play(16_000).unwrap();
    let first = progress_of(&animator);
    animator.play(20_000).unwrap();
    let second = progress_of(&animator) - first;

    assert!((first - 48_000).abs() < 100); // 16000 * 3.0
    assert!((second - 60_000).abs() < 100); // 20000 * 3.0
}

#[test]
fn test_reset_clears_elapsed_time() {
    let (strategy, _) = observable_strategy();
    let mut animator = Animator::new(NEUTRAL_SPEED, strategy).unwrap();

    animator.play(16_000).unwrap();
    animator.play(16_000).unwrap();
    assert!((animator.get_elapsed_time() - 32_000).abs() < 100);

    animator.reset();

    assert_eq!(animator.get_elapsed_time(), 0);
}

#[test]
fn test_reset_calls_animation_reset() {
    let (strategy, _) = observable_strategy();
    let mut animator = Animator::new(NEUTRAL_SPEED, strategy).unwrap();

    animator.play(16_000).unwrap();
    assert!(progress_of(&animator) > 0);

    animator.reset();

    // The wrapped strategy was reset too.
    assert_eq!(progress_of(&animator), 0);
}

#[test]
fn test_reset_multiple_times() {
    let (strategy, _) = observable_strategy();
    let mut animator = Animator::new(NEUTRAL_SPEED, strategy).unwrap();

    animator.play(16_000).unwrap();
    animator.reset();
    animator.play(20_000).unwrap();
    animator.reset();
    animator.reset();

    assert_eq!(progress_of(&animator), 0);
    assert_eq!(animator.get_elapsed_time(), 0);
}

#[test]
fn test_reset_preserves_speed_multiplier() {
    let (strategy, _) = observable_strategy();
    let mut animator = Animator::new(2_500_000, strategy).unwrap();

    animator.reset();

    assert_eq!(animator.get_speed_multiplier(), 2_500_000);
}

#[test]
fn test_reset_preserves_playing_state() {
    let (strategy, _) = observable_strategy();
    let mut animator = Animator::new(NEUTRAL_SPEED, strategy).unwrap();

    animator.pause();
    animator.reset();

    assert_eq!(animator.is_currently_playing, false);
}

#[test]
fn circular_test_circular_trajectory_rotation_without_target() {
    let transform = TransformHandle::new(Transform::default());
    let radius = 5_000_000;
    let mut trajectory = CircularTrajectory::new_deconstructed_mesh(
        MeshId("TEST".to_string()),
        transform.clone(),
        radius,
        100_000_000,
    )
    .unwrap();

    // Initial position should be at angle 0 (radius units along X axis)
    trajectory.animate(None, 0).unwrap();
    let pos = transform.read_transform().position;
    assert!((pos.x - radius).abs() < 1000);
    assert!(pos.z.abs() < 1000);

    // After rotation, angle should have increased
    let initial_angle = trajectory.angle;
    trajectory.animate(None, 100_000).unwrap();
    assert!(trajectory.angle > initial_angle);

    // Position should still be on the circle (distance from origin = radius)
    let pos = transform.read_transform().position;
    let distance_from_origin = ((pos.x as f64).powi(2) + (pos.z as f64).powi(2)).sqrt();
    assert!((distance_from_origin - radius as f64).abs() < 1000.0);
}

#[test]
fn circular_test_circular_trajectory_rotation_with_target() {
    let transform = TransformHandle::new(Transform::default());
    let mut target_transform = Transform::default();
    target_transform.position = Vec3::new(10_000_000, 0, 20_000_000);

    let radius = 3_000_000;
    let mut trajectory = CircularTrajectory::new_deconstructed_mesh(
        MeshId("TEST".to_string()),
        transform.clone(),
        radius,
        100_000_000,
    )
    .unwrap();

    // Animate around target
    trajectory.animate(Some(&target_transform), 0).unwrap();

    // Position should be offset from target by radius
    let pos = transform.read_transform().position;
    let offset_x = (pos.x - target_transform.position.x) as f64;
    let offset_z = (pos.z - target_transform.position.z) as f64;
    let distance_from_target = (offset_x * offset_x + offset_z * offset_z).sqrt();

    assert!((distance_from_target - radius as f64).abs() < 1000.0);
    assert!((pos.y - target_transform.position.y).abs() < 1000); // Y should match target
}

#[test]
fn circular_test_circular_trajectory_reset() {
    let transform = TransformHandle::new(Transform::default());
    let mut trajectory = CircularTrajectory::new_deconstructed_mesh(
        MeshId("TEST".to_string()),
        transform.clone(),
        7_000_000,
        100_000_000,
    )
    .unwrap();

    // Rotate for some time
    trajectory.animate(None, 1_000_000).unwrap();
    assert!(trajectory.angle > 0);

    // Reset
    trajectory.reset();

    // Angle should be back to 0
    assert_eq!(trajectory.angle, 0);
}

#[test]
fn circular_rejects_non_positive_parameters() {
    let t1 = TransformHandle::new(Transform::default());
    let r = CircularTrajectory::new_deconstructed_mesh(MeshId("A".to_string()), t1, 0, 100_000_000);
    assert_eq!(r.err(), Some(hyako::error::MotionError::InvalidParameters));
    let t2 = TransformHandle::new(Transform::default());
    let r = CircularTrajectory::new_deconstructed_mesh(MeshId("B".to_string()), t2, 5_000_000, -1);
    assert_eq!(r.err(), Some(hyako::error::MotionError::InvalidParameters));
}

#[test]
fn circular_point_stays_on_circle_after_many_frames() {
    let transform = TransformHandle::new(Transform::default());
    let radius = 5_000_000;
    let mut trajectory = CircularTrajectory::new_deconstructed_mesh(
        MeshId("orbit".to_string()),
        transform.clone(),
        radius,
        100_000_000,
    )
    .unwrap();
    for _ in 0..50 {
        trajectory.animate(None, 16_000).unwrap();
        let pos = transform.read_transform().position;
        let d = ((pos.x as f64).powi(2) + (pos.z as f64).powi(2)).sqrt();
        assert!((d - radius as f64).abs() < 1000.0, "left the circle: {}", d);
    }
}

#[test]
fn stationary_test_stationary_trajectory_creation() {
    let _trajectory = StationaryTrajectory {
        id: MeshId(uuid::Uuid::new_v4().to_string()),
    };
    // Just verify it can be created
}

#[test]
fn stationary_test_stationary_trajectory_animate_returns_ok() {
    let mut trajectory = StationaryTrajectory {
        id: MeshId(uuid::Uuid::new_v4().to_string()),
    };
    let result = trajectory.animate(None, 1_000_000);
    assert!(result.is_ok());

    // Also test with a target transform
    let target = Transform::default();
    let result = trajectory.animate(Some(&target), 500_000);
    assert!(result.is_ok());
}

#[test]
fn stationary_test_stationary_trajectory_reset_does_nothing() {
    let mut trajectory = StationaryTrajectory {
        id: MeshId(uuid::Uuid::new_v4().to_string()),
    };

    // Reset should not panic or fail
    trajectory.reset();

    // Should still be able to animate after reset
    let result = trajectory.animate(None, 1_000_000);
    assert!(result.is_ok());
}

#[test]
fn strategy_reset_is_idempotent_for_each_variant() {
    let t = TransformHandle::new(Transform::default());
    let lin = LinearTrajectory::new_deconstructed_mesh(
        "L".to_string(),
        t.clone(),
        Vec3::new(0, 0, 0),
        0,
        0,
        1_000_000,
        1_000_000,
        true,
        true,
    )
    .unwrap();
    let mut s = MotionStrategy::Linear(lin);
    s.animate(None, 700_000).unwrap();
    s.reset();
    let once = match &s {
        MotionStrategy::Linear(l) => (l.progress, l.direction),
        _ => unreachable!(),
    };
    s.reset();
    let twice = match &s {
        MotionStrategy::Linear(l) => (l.progress, l.direction),
        _ => unreachable!(),
    };
    assert_eq!(once, twice);

    let t2 = TransformHandle::new(Transform::default());
    let circ = CircularTrajectory::new_deconstructed_mesh(
        MeshId("C".to_string()),
        t2,
        2_000_000,
        1_000_000,
    )
    .unwrap();
    let mut s = MotionStrategy::Circular(circ);
    s.animate(None, 250_000).unwrap();
    s.reset();
    let once = match &s {
        MotionStrategy::Circular(c) => c.angle,
        _ => unreachable!(),
    };
    s.reset();
    let twice = match &s {
        MotionStrategy::Circular(c) => c.angle,
        _ => unreachable!(),
    };
    assert_eq!(once, twice);
}

#[test]
fn animator_feeds_scaled_delta_to_wrapped_strategy() {
    // Speed multiplier 2.0: one 16 ms frame hands the strategy 32 ms.
    let (strategy, _) = observable_strategy();
    let mut animator = Animator::new(2_000_000, strategy).unwrap();
    animator.play(16_000).unwrap();
    assert_eq!(progress_of(&animator), 32_000);

    // Paused, the strategy sees nothing at all.
    animator.pause();
    animator.play(16_000).unwrap();
    assert_eq!(progress_of(&animator), 32_000);
}

#[test]
fn circular_without_target_levels_the_height() {
    // An object parked above the plane drops to height zero on the first
    // orbit frame about the origin.
    let transform = TransformHandle::new(Transform::new(
        Vec3::new(0, 7_000_000, 0),
        hyako::quat::Quat::new(0, 0, 0, 1_000_000),
        Vec3::new(1_000_000, 1_000_000, 1_000_000),
    ));
    let mut orbit = CircularTrajectory::new_deconstructed_mesh(
        MeshId("level".to_string()),
        transform.clone(),
        5_000_000,
        1_000_000,
    )
    .unwrap();
    orbit.animate(None, 0).unwrap();
    let pos = transform.read_transform().position;
    assert_eq!(pos.y, 0);
    assert!((pos.x - 5_000_000).abs() < 1000);
}
