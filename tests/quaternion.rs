use ezcgmath::matrix::Matrix3x3;
use ezcgmath::quaternion::Quaternion;
use ezcgmath::vector::Vector3;
use ezcgmath::{Degrees, Radians};

/// Equal within `f32::EPSILON`, or within four units in the last place.
fn ulps_eq(a: f32, b: f32) -> bool {
    if (a - b).abs() <= f32::EPSILON {
        return true;
    }
    if a.is_sign_negative() != b.is_sign_negative() {
        return false;
    }
    ((a.to_bits() as i64) - (b.to_bits() as i64)).abs() <= 4
}

fn near(a: Quaternion<f32>, b: Quaternion<f32>) -> bool {
    ulps_eq(a.x, b.x) && ulps_eq(a.y, b.y) && ulps_eq(a.z, b.z) && ulps_eq(a.w, b.w)
}

fn radians(d: Degrees<f32>) -> f32 {
    Radians::from_degrees(d, std::f32::consts::PI).0
}

fn unit(q: Quaternion<f32>) -> Quaternion<f32> {
    q / q.magnitude_squared().sqrt()
}

fn unit3(v: Vector3<f32>) -> Vector3<f32> {
    v / v.dot(&v).sqrt()
}

fn from_axis_angle(axis: &Vector3<f32>, angle: Degrees<f32>) -> Quaternion<f32> {
    let half = radians(angle) / 2.0;
    unit(Quaternion::from_axis_half_angle(axis, half.sin(), half.cos()))
}

fn from_look_at(forward: &Vector3<f32>, up: &Vector3<f32>) -> Quaternion<f32> {
    let basis = Matrix3x3::from_look_at_unit(&unit3(*forward), &unit3(*up));
    let branch = Quaternion::rotation_branch(&basis);
    let s = Quaternion::branch_radicand(&basis, branch).sqrt() * 2.0;
    unit(Quaternion::from_rotation_branch(&basis, branch, s))
}

fn from_euler(x: Degrees<f32>, y: Degrees<f32>, z: Degrees<f32>) -> Quaternion<f32> {
    let (x, y, z) = (radians(x) * 0.5, radians(y) * 0.5, radians(z) * 0.5);
    unit(Quaternion::from_euler_half_angles(x.cos(), x.sin(), y.cos(), y.sin(), z.cos(), z.sin()))
}

#[test]
fn from_axis_angle_quarter_turn() {
    let axis_angle_rotation = from_axis_angle(&Vector3::unit_y(), Degrees(90.0));
    assert!(near(axis_angle_rotation, Quaternion { x: 0.0, y: 0.7071067811865474, z: 0.0, w: 0.7071067811865474 }));
}

#[test]
fn from_look_at_orientations() {
    let default_orientation = from_look_at(&Vector3::unit_z(), &Vector3::unit_y());
    assert!(near(default_orientation, Quaternion { x: 0.0, y: 0.0, z: 0.0, w: 1.0 }));

    let negative_up_right_forward = from_look_at(&-Vector3::unit_x(), &-Vector3::unit_z());
    assert!(near(negative_up_right_forward, Quaternion { x: -0.5, y: -0.5, z: 0.5, w: 0.5 }));

    let larger_right_vector = from_look_at(&Vector3::new(0.0, 1.0, 1.0), &Vector3::new(0.0, 1.0, -1.0));
    assert!(near(larger_right_vector, Quaternion { x: -0.3826834290674337, y: 0.0, z: 0.0, w: 0.9238795338772207 }));

    let larger_up_vector = from_look_at(&Vector3::new(-1.0, 0.0, 1.0), &Vector3::new(-1.0, 0.0, -1.0));
    assert!(near(larger_up_vector, Quaternion {
        x: -0.2705980477413035, y: -0.2705980477413035, z: 0.6532814834040493, w: 0.6532814834040493,
    }));

    let larger_forward_vector = from_look_at(&Vector3::new(0.0, 0.0, 1.0), &Vector3::new(-1.0, 1.0, 0.0));
    assert!(near(larger_forward_vector, Quaternion { x: 0.0, y: 0.0, z: 0.3826834290674337, w: 0.9238795338772207 }));
}

#[test]
fn from_euler_quarter_turns() {
    let q = from_euler(Degrees(90.0), Degrees(0.0), Degrees(0.0));
    assert!(near(q, Quaternion { x: 0.7071068, y: 0.0, z: 0.0, w: 0.7071068 }));
    let q = from_euler(Degrees(0.0), Degrees(90.0), Degrees(0.0));
    assert!(near(q, Quaternion { x: 0.0, y: 0.7071068, z: 0.0, w: 0.7071068 }));
    let q = from_euler(Degrees(0.0), Degrees(0.0), Degrees(90.0));
    assert!(near(q, Quaternion { x: 0.0, y: 0.0, z: 0.7071068, w: 0.7071068 }));
}

#[test]
fn quaternion_multiply_quaternion() {
    let a: Quaternion<f32> = Quaternion { x: 1.0, y: 2.0, z: 3.0, w: 4.0 };
    let b = Quaternion { x: 2.0, y: 4.0, z: 6.0, w: 8.0 };
    assert!(near(a * b, Quaternion { x: 16.0, y: 32.0, z: 48.0, w: 4.0 }));
}
