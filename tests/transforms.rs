use ezcgmath::matrix::{Matrix3x3, Matrix4x4};
use ezcgmath::quaternion::{Quaternion, RotationBranch};
use ezcgmath::vector::{Vector2, Vector3, Vector4};
use ezcgmath::{Degrees, Radians};

fn close(a: f32, b: f32) -> bool {
    (a - b).abs() <= 1e-6
}

#[test]
fn translation_adds_offset() {
    let v: Vector3<f32> = Vector3::new(1.5, -2.0, 4.0);
    let t = Vector3::new(10.0, 20.0, -30.0);
    let moved = v * Matrix4x4::from_translation(&t);
    let sum = v + t;
    assert_eq!((moved.x, moved.y, moved.z), (sum.x, sum.y, sum.z));
    assert_eq!((moved.x, moved.y, moved.z), (11.5, 18.0, -26.0));
}

#[test]
fn normalizing_twice_changes_nothing() {
    let v: Vector3<f32> = Vector3::new(3.0, -4.0, 12.0);
    let once = v / v.dot(&v).sqrt();
    let twice = once / once.dot(&once).sqrt();
    assert!(close(once.x, twice.x) && close(once.y, twice.y) && close(once.z, twice.z));
    assert!(close(once.x, 3.0 / 13.0) && close(once.y, -4.0 / 13.0) && close(once.z, 12.0 / 13.0));
}

#[test]
fn zero_vector_normalizes_to_nan() {
    let v: Vector3<f32> = Vector3::new(0.0, 0.0, 0.0);
    let n = v / v.dot(&v).sqrt();
    assert!(n.x.is_nan() && n.y.is_nan() && n.z.is_nan());
}

#[test]
fn unit_vectors() {
    let (x, y): (Vector2<f32>, Vector2<f32>) = (Vector2::unit_x(), Vector2::unit_y());
    assert_eq!((x.x, x.y, y.x, y.y), (1.0, 0.0, 0.0, 1.0));
    let (x, y, z): (Vector3<f32>, Vector3<f32>, Vector3<f32>) = (Vector3::unit_x(), Vector3::unit_y(), Vector3::unit_z());
    assert_eq!((x.x, x.y, x.z), (1.0, 0.0, 0.0));
    assert_eq!((y.x, y.y, y.z), (0.0, 1.0, 0.0));
    assert_eq!((z.x, z.y, z.z), (0.0, 0.0, 1.0));
}

#[test]
fn negation_flips_every_field() {
    let v: Vector4<f32> = Vector4::new(1.0, -2.0, 3.0, -4.0);
    let n = -v;
    assert_eq!((n.x, n.y, n.z, n.w), (-1.0, 2.0, -3.0, 4.0));
    let u = -Vector2::new(5.0f32, -6.0);
    assert_eq!((u.x, u.y), (-5.0, 6.0));
}

#[test]
fn cross_follows_stated_sign() {
    let a: Vector3<f32> = Vector3::new(1.0, 2.0, 3.0);
    let b = Vector3::new(4.0, 5.0, 6.0);
    let c = a.cross(&b);
    assert_eq!((c.x, c.y, c.z), (-3.0, 6.0, -3.0));
}

#[test]
fn homogeneous_round_trip() {
    let v: Vector3<f32> = Vector3::new(2.0, 4.0, 8.0);
    let h = Vector4::from(v);
    assert_eq!((h.x, h.y, h.z, h.w), (2.0, 4.0, 8.0, 1.0));
    let back = Vector3::from_homogeneous(Vector4::new(2.0f32, 4.0, 8.0, 2.0));
    assert_eq!((back.x, back.y, back.z), (1.0, 2.0, 4.0));
}

#[test]
fn angle_conversions() {
    let r = Radians::from_degrees(Degrees(180.0f32), std::f32::consts::PI);
    assert_eq!(r.0, std::f32::consts::PI);
    let d = Degrees::from_radians(Radians(std::f32::consts::PI), std::f32::consts::PI);
    assert_eq!(d.0, 180.0);
    assert_eq!(Radians::from(1.5f32).0, 1.5);
    assert_eq!(Degrees::from(90.0f32).0, 90.0);
}

#[test]
fn quaternion_identity_and_magnitude() {
    let q: Quaternion<f32> = Quaternion::identity();
    assert_eq!((q.x, q.y, q.z, q.w), (0.0, 0.0, 0.0, 1.0));
    let r: Quaternion<f32> = Quaternion { x: 1.0, y: 2.0, z: 3.0, w: 4.0 };
    assert_eq!(r.magnitude_squared(), 30.0);
    let halved = r / 2.0;
    assert_eq!((halved.x, halved.y, halved.z, halved.w), (0.5, 1.0, 1.5, 2.0));
}

#[test]
fn axis_angle_before_normalizing() {
    let axis: Vector3<f32> = Vector3::new(0.0, 2.0, 0.0);
    let q = Quaternion::from_axis_half_angle(&axis, 0.5, 0.25);
    assert_eq!((q.x, q.y, q.z, q.w), (0.0, 1.0, 0.0, 0.25));
}

#[test]
fn euler_half_angles_formula() {
    // cr, sr, cp, sp, cy, sy
    let q = Quaternion::from_euler_half_angles(1.0f32, 2.0, 3.0, 5.0, 7.0, 11.0);
    assert_eq!(q.x, 7.0 * 2.0 * 3.0 - 11.0 * 1.0 * 5.0);
    assert_eq!(q.y, 7.0 * 1.0 * 5.0 + 11.0 * 2.0 * 3.0);
    assert_eq!(q.z, 11.0 * 1.0 * 3.0 - 7.0 * 2.0 * 5.0);
    assert_eq!(q.w, 7.0 * 1.0 * 3.0 + 11.0 * 2.0 * 5.0);
}

fn diagonal(a: f32, b: f32, c: f32) -> Matrix3x3<f32> {
    Matrix3x3 {
        c00: a, c10: 0.0, c20: 0.0,
        c01: 0.0, c11: b, c21: 0.0,
        c02: 0.0, c12: 0.0, c22: c,
    }
}

#[test]
fn rotation_branch_policy() {
    assert_eq!(Quaternion::rotation_branch(&diagonal(1.0, 1.0, 1.0)), RotationBranch::Trace);
    assert_eq!(Quaternion::rotation_branch(&diagonal(0.0, -0.5, 0.5)), RotationBranch::Trace);
    assert_eq!(Quaternion::rotation_branch(&diagonal(1.0, -1.0, -1.0)), RotationBranch::X);
    assert_eq!(Quaternion::rotation_branch(&diagonal(-1.0, 1.0, -1.0)), RotationBranch::Y);
    assert_eq!(Quaternion::rotation_branch(&diagonal(-1.0, -1.0, 1.0)), RotationBranch::Z);
    // A tie between c00 and c11 is no win for c00: the c11 branch is next.
    assert_eq!(Quaternion::rotation_branch(&diagonal(0.5, 0.5, -2.0)), RotationBranch::Y);
    assert_eq!(Quaternion::rotation_branch(&diagonal(-0.5, -2.0, -2.0)), RotationBranch::X);
    assert_eq!(Quaternion::rotation_branch(&diagonal(-2.0, 0.5, 0.5)), RotationBranch::Z);
}

#[test]
fn half_turns_use_diagonal_branches() {
    // Half turns about x, y and z: the trace is -1, so a diagonal branch applies.
    for (m, branch, expected) in [
        (diagonal(1.0, -1.0, -1.0), RotationBranch::X, (1.0, 0.0, 0.0, 0.0)),
        (diagonal(-1.0, 1.0, -1.0), RotationBranch::Y, (0.0, 1.0, 0.0, 0.0)),
        (diagonal(-1.0, -1.0, 1.0), RotationBranch::Z, (0.0, 0.0, 1.0, 0.0)),
    ] {
        assert_eq!(Quaternion::rotation_branch(&m), branch);
        let radicand = Quaternion::branch_radicand(&m, branch);
        assert_eq!(radicand, 4.0);
        let q = Quaternion::from_rotation_branch(&m, branch, radicand.sqrt() * 2.0);
        assert_eq!((q.x, q.y, q.z, q.w), expected);
    }
}

#[test]
fn look_at_basis_rows() {
    let forward: Vector3<f32> = Vector3::unit_z();
    let up = Vector3::unit_y();
    let m = Matrix3x3::from_look_at_unit(&forward, &up);
    assert_eq!((m.c00, m.c10, m.c20), (1.0, 0.0, 0.0));
    assert_eq!((m.c01, m.c11, m.c21), (0.0, 1.0, 0.0));
    assert_eq!((m.c02, m.c12, m.c22), (0.0, 0.0, 1.0));
}
