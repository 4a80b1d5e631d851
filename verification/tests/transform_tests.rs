//! Spatial-transform behaviour on fixed-point values.

use hyako::quat::Quat;
use hyako::transform::{Mat4, Transform};
use hyako::vec3::Vec3;

const EPSILON: i64 = 10;

fn quat_from_rotation_y(angle_rad: f64) -> Quat {
    let half = angle_rad / 2.0;
    Quat::new(
        0,
        (half.sin() * 1_000_000.0).round() as i64,
        0,
        (half.cos() * 1_000_000.0).round() as i64,
    )
}

fn vec3_one() -> Vec3 {
    Vec3::new(1_000_000, 1_000_000, 1_000_000)
}

fn assert_vec3_eq(a: Vec3, b: Vec3, msg: &str) {
    assert!(
        (a.x - b.x).abs() <= EPSILON && (a.y - b.y).abs() <= EPSILON && (a.z - b.z).abs()
            <= EPSILON,
        "{}: expected {:?}, got {:?}",
        msg,
        b,
        a
    );
}

fn assert_quat_eq(a: Quat, b: Quat, msg: &str) {
    // Quaternions q and -q represent the same rotation
    let dot = (a.x as i128 * b.x as i128 + a.y as i128 * b.y as i128 + a.z as i128 * b.z as i128
        + a.w as i128 * b.w as i128)
        .abs();
    let unit2: i128 = 1_000_000_000_000;
    assert!(
        (dot - unit2).abs() < 10_000_000,
        "{}: expected {:?}, got {:?} (dot: {})",
        msg,
        b,
        a,
        dot
    );
}

fn mat4_entries(m: &Mat4) -> [i64; 16] {
    [
        m.m00, m.m01, m.m02, m.m03, m.m10, m.m11, m.m12, m.m13, m.m20, m.m21, m.m22, m.m23, m.m30,
        m.m31, m.m32, m.m33,
    ]
}

fn assert_mat4_close(a: &Mat4, b: &Mat4, msg: &str) {
    let ea = mat4_entries(a);
    let eb = mat4_entries(b);
    for i in 0..16 {
        assert!(
            (ea[i] - eb[i]).abs() <= EPSILON,
            "{}: entry {} expected {}, got {}",
            msg,
            i,
            eb[i],
            ea[i]
        );
    }
}

fn identity_quat() -> Quat {
    Quat::new(0, 0, 0, 1_000_000)
}

#[test]
fn test_identity_transform_produces_identity_matrix() {
    let transform = Transform::new(Vec3::zero(), identity_quat(), vec3_one());
    let matrix = transform.get_matrix();

    assert_eq!(
        matrix,
        Mat4::identity(),
        "Identity transform should produce identity matrix"
    );
}

#[test]
fn test_translation_only() {
    let position = Vec3::new(1_000_000, 2_000_000, 3_000_000);
    let transform = Transform::new(position, identity_quat(), vec3_one());
    let matrix = transform.get_matrix();

    let expected = Mat4::from_translation(position);
    assert_eq!(
        matrix, expected,
        "Translation-only transform should match Mat4::from_translation"
    );

    // Verify translation component
    let translation = Vec3::new(matrix.m03, matrix.m13, matrix.m23);
    assert_vec3_eq(translation, position, "Matrix translation component");
}

#[test]
fn test_rotation_only() {
    let rotation = quat_from_rotation_y(std::f64::consts::PI / 2.0); // 90 degrees around Y
    let transform = Transform::new(Vec3::zero(), rotation, vec3_one());
    let matrix = transform.get_matrix();

    let expected = Mat4::from_quat(rotation);
    assert_mat4_close(&matrix, &expected, "Rotation-only matrix");
}

#[test]
fn test_scale_only() {
    let scale = Vec3::new(2_000_000, 3_000_000, 4_000_000);
    let transform = Transform::new(Vec3::zero(), identity_quat(), scale);
    let matrix = transform.get_matrix();

    let expected = Mat4::from_scale(scale);
    assert_eq!(
        matrix, expected,
        "Scale-only transform should match Mat4::from_scale"
    );
}

#[test]
fn test_combined_trs_matrix_order() {
    let position = Vec3::new(10_000_000, 0, 0);
    let rotation = quat_from_rotation_y(std::f64::consts::PI / 2.0);
    let scale = Vec3::new(2_000_000, 2_000_000, 2_000_000);

    let transform = Transform::new(position, rotation, scale);
    let matrix = transform.get_matrix();

    // Manual TRS multiplication
    let expected = Mat4::from_translation(position)
        .multiply(Mat4::from_quat(rotation))
        .multiply(Mat4::from_scale(scale));

    assert_mat4_close(&matrix, &expected, "TRS matrix");
}

#[test]
fn test_translate_updates_position() {
    let mut transform = Transform::new(
        Vec3::new(1_000_000, 2_000_000, 3_000_000),
        identity_quat(),
        vec3_one(),
    );

    transform.translate(Vec3::new(500_000, -500_000, 1_000_000));

    assert_vec3_eq(
        transform.position,
        Vec3::new(1_500_000, 1_500_000, 4_000_000),
        "Position after translate",
    );
}

#[test]
fn test_translate_multiple_times() {
    let mut transform = Transform::new(Vec3::zero(), identity_quat(), vec3_one());

    transform.translate(Vec3::new(1_000_000, 0, 0));
    transform.translate(Vec3::new(0, 1_000_000, 0));
    transform.translate(Vec3::new(0, 0, 1_000_000));

    assert_vec3_eq(
        transform.position,
        Vec3::new(1_000_000, 1_000_000, 1_000_000),
        "Position after multiple translates",
    );
}

#[test]
fn test_rotation_updates_quaternion() {
    let mut transform = Transform::new(Vec3::zero(), identity_quat(), vec3_one());

    let delta_rotation = quat_from_rotation_y(std::f64::consts::PI / 4.0); // 45 degrees
    transform.rotate(delta_rotation);

    assert_quat_eq(
        transform.rotation,
        delta_rotation,
        "Rotation after single update",
    );
}

#[test]
fn test_rotation_accumulates() {
    let mut transform = Transform::new(Vec3::zero(), identity_quat(), vec3_one());

    // Apply 45 degrees twice = 90 degrees total
    let delta = quat_from_rotation_y(std::f64::consts::PI / 4.0);
    transform.rotate(delta);
    transform.rotate(delta);

    let expected = quat_from_rotation_y(std::f64::consts::PI / 2.0);
    assert_quat_eq(transform.rotation, expected, "Accumulated rotation");
}

#[test]
fn test_rotation_stays_normalized() {
    let mut transform = Transform::new(Vec3::zero(), identity_quat(), vec3_one());

    // Apply many small rotations
    let delta = quat_from_rotation_y(0.01);
    for _ in 0..1000 {
        transform.rotate(delta);
    }

    let q = transform.rotation;
    let norm2 = q.x as i128 * q.x as i128 + q.y as i128 * q.y as i128 + q.z as i128 * q.z as i128
        + q.w as i128 * q.w as i128;
    let norm = (norm2 as f64).sqrt();
    assert!(
        (norm - 1_000_000.0).abs() < 10.0,
        "Quaternion should stay normalized after many rotations, got length {}",
        norm
    );
}

#[test]
fn test_scale_multiplies_components() {
    let mut transform = Transform::new(
        Vec3::zero(),
        identity_quat(),
        Vec3::new(2_000_000, 3_000_000, 4_000_000),
    );

    transform.scale(Vec3::new(2_000_000, 500_000, 250_000));

    assert_vec3_eq(
        transform.scale,
        Vec3::new(4_000_000, 1_500_000, 1_000_000),
        "Scale after multiplication",
    );
}

#[test]
fn test_scale_with_identity_no_change() {
    let mut transform = Transform::new(
        Vec3::zero(),
        identity_quat(),
        Vec3::new(2_000_000, 3_000_000, 4_000_000),
    );
    let original_scale = transform.scale;

    transform.scale(vec3_one());

    assert_vec3_eq(
        transform.scale,
        original_scale,
        "Scale should not change with ONE",
    );
}

#[test]
fn test_delta_time_translation() {
    let mut transform = Transform::new(Vec3::zero(), identity_quat(), vec3_one());

    // 10 units per second for 100 ms comes to one unit.
    let step = Vec3::new(1_000_000, 0, 0);

    transform.translate(step);

    assert_vec3_eq(
        transform.position,
        Vec3::new(1_000_000, 0, 0),
        "Position after delta time application",
    );
}

#[test]
fn test_delta_time_rotation() {
    let mut transform = Transform::new(Vec3::zero(), identity_quat(), vec3_one());

    // 180 degrees per second for half a second comes to 90 degrees.
    let angular_velocity = std::f64::consts::PI;
    let delta_time = 0.5;

    let delta_rotation = quat_from_rotation_y(angular_velocity * delta_time);
    transform.rotate(delta_rotation);

    let expected = quat_from_rotation_y(std::f64::consts::PI / 2.0);
    assert_quat_eq(transform.rotation, expected, "Rotation after delta time");
}

#[test]
fn test_delta_time_consistency() {
    // Two small steps should equal one large step
    let mut transform1 = Transform::new(Vec3::zero(), identity_quat(), vec3_one());
    let mut transform2 = Transform::new(Vec3::zero(), identity_quat(), vec3_one());

    // One large step: 5 units per second for 100 ms.
    transform1.translate(Vec3::new(500_000, 0, 0));

    // Two small steps
    transform2.translate(Vec3::new(250_000, 0, 0));
    transform2.translate(Vec3::new(250_000, 0, 0));

    assert_vec3_eq(
        transform1.position,
        transform2.position,
        "Delta time should be consistent across step sizes",
    );
}

#[test]
fn test_matrix_transforms_point_correctly() {
    // Test that the matrix actually transforms points as expected
    let transform = Transform::new(
        Vec3::new(10_000_000, 0, 0),
        quat_from_rotation_y(std::f64::consts::PI / 2.0), // 90 degrees
        Vec3::new(2_000_000, 2_000_000, 2_000_000),
    );

    let matrix = transform.get_matrix();
    let point = Vec3::new(1_000_000, 0, 0);
    let transformed = matrix.transform_point3(point);

    // Point (1,0,0) scaled by 2 = (2,0,0)
    // Rotated 90 degrees around Y: (2,0,0) -> (0,0,-2)
    // Translated by (10,0,0): (0,0,-2) -> (10,0,-2)
    let expected = Vec3::new(10_000_000, 0, -2_000_000);

    assert!(
        (transformed.x - expected.x).abs() < 50
            && (transformed.y - expected.y).abs() < 50
            && (transformed.z - expected.z).abs() < 50,
        "Transformed point: expected {:?}, got {:?}",
        expected,
        transformed
    );
}
