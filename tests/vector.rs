use ezcgmath::matrix::{Matrix3, Matrix4, Matrix4x4};
use ezcgmath::quaternion::Quaternion;
use ezcgmath::vector::{Vector2, Vector3, Vector4};

/// Equal within `f32::EPSILON`, or within four units in the last place.
fn ulps_eq(a: f32, b: f32) -> bool {
    if (a - b).abs() <= f32::EPSILON {
        return true;
    }
    if a.is_sign_negative() != b.is_sign_negative() {
        return false;
    }
    ((a.to_bits() as i64) - (b.to_bits() as i64)).abs() <= 4
}

fn near2(a: Vector2<f32>, b: Vector2<f32>) -> bool {
    ulps_eq(a.x, b.x) && ulps_eq(a.y, b.y)
}

fn near3(a: Vector3<f32>, b: Vector3<f32>) -> bool {
    ulps_eq(a.x, b.x) && ulps_eq(a.y, b.y) && ulps_eq(a.z, b.z)
}

fn near4(a: Vector4<f32>, b: Vector4<f32>) -> bool {
    ulps_eq(a.x, b.x) && ulps_eq(a.y, b.y) && ulps_eq(a.z, b.z) && ulps_eq(a.w, b.w)
}

/// The Euclidean length: the square root of the dot product with itself.
fn length3(v: Vector3<f32>) -> f32 {
    v.dot(&v).sqrt()
}

/// The vector divided by its length.
fn normalized3(v: Vector3<f32>) -> Vector3<f32> {
    v / length3(v)
}

const V2_A: Vector2<f32> = Vector2 { x: 2.0, y: 4.0 };
const V2_B: Vector2<f32> = Vector2 { x: 5.0, y: 10.0 };

#[test]
fn vector_add() {
    assert!(near2(V2_A + V2_B, Vector2::new(7.0, 14.0)));
}

#[test]
fn vector_subtract() {
    assert!(near2(V2_A - V2_B, Vector2::new(-3.0, -6.0)));
}

#[test]
fn vector_multiply() {
    let rhs = 5.0;
    assert!(near2(V2_A * rhs, Vector2::new(10.0, 20.0)));
}

#[test]
fn vector_divide() {
    let rhs = 5.0;
    assert!(near2(V2_A / rhs, Vector2::new(0.4, 0.8)));
}

#[test]
fn vector_dot() {
    assert!(ulps_eq(V2_A.dot(&V2_B), 50.0));
}

#[test]
fn vector_length() {
    assert!(ulps_eq(V2_A.dot(&V2_A).sqrt(), (20.0 as f32).sqrt()));
    assert!(ulps_eq(V2_B.dot(&V2_B).sqrt(), (125.0 as f32).sqrt()));
}

#[test]
fn vector_normalize() {
    let a_len = (20.0 as f32).sqrt();
    let a = V2_A / V2_A.dot(&V2_A).sqrt();
    assert!(near2(a, Vector2::new(2.0 / a_len, 4.0 / a_len)));
    let b_len = (125.0 as f32).sqrt();
    let b = V2_B / V2_B.dot(&V2_B).sqrt();
    assert!(near2(b, Vector2::new(5.0 / b_len, 10.0 / b_len)));
}

const V3_A: Vector3<f32> = Vector3 { x: 2.0, y: 4.0, z: 6.0 };
const V3_B: Vector3<f32> = Vector3 { x: 5.0, y: 10.0, z: 15.0 };

#[test]
fn vector3_add() {
    assert!(near3(V3_A + V3_B, Vector3::new(7.0, 14.0, 21.0)));
}

#[test]
fn vector3_subtract() {
    assert!(near3(V3_A - V3_B, Vector3::new(-3.0, -6.0, -9.0)));
}

#[test]
fn vector3_multiply() {
    let rhs = 5.0;
    assert!(near3(V3_A * rhs, Vector3::new(10.0, 20.0, 30.0)));
}

#[test]
fn vector3_divide() {
    let rhs = 5.0;
    assert!(near3(V3_A / rhs, Vector3::new(0.4, 0.8, 1.2)));
}

#[test]
fn vector3_dot() {
    assert!(ulps_eq(V3_A.dot(&V3_B), 140.0));
}

#[test]
fn cross() {
    let v1: Vector3<f32> = Vector3::new(1.0, 0.0, 0.0);
    let v2 = Vector3::new(0.0, 0.0, 1.0);
    assert!(near3(v1.cross(&v2), Vector3::new(0.0, -1.0, 0.0)));
}

#[test]
fn vector3_length() {
    assert!(ulps_eq(length3(V3_A), (56.0 as f32).sqrt()));
    assert!(ulps_eq(length3(V3_B), (350.0 as f32).sqrt()));
}

#[test]
fn vector3_normalize() {
    let a_len = (56.0 as f32).sqrt();
    assert!(near3(normalized3(V3_A), Vector3::new(2.0 / a_len, 4.0 / a_len, 6.0 / a_len)));
    let b_len = (350.0 as f32).sqrt();
    assert!(near3(normalized3(V3_B), Vector3::new(5.0 / b_len, 10.0 / b_len, 15.0 / b_len)));
}

#[test]
fn multiply_matrix3() {
    let lhs: Vector3<f32> = Vector3::new(2.0, 4.0, 6.0);
    let rhs: Matrix3<f32> = Matrix3 {
        c00: 1.0, c10: 2.0, c20: 3.0,
        c01: 4.0, c11: 5.0, c21: 6.0,
        c02: 7.0, c12: 8.0, c22: 9.0,
    };
    assert!(near3(lhs * rhs, Vector3 { x: 60.0, y: 72.0, z: 84.0 }));
}

#[test]
fn vector_multiply_matrix4() {
    let lhs: Vector3<f32> = Vector3::new(2.0, 4.0, 6.0);
    let rhs: Matrix4<f32> = Matrix4 {
        c00: 1.0, c10: 2.0, c20: 3.0, c30: 4.0,
        c01: 5.0, c11: 6.0, c21: 7.0, c31: 8.0,
        c02: 9.0, c12: 10.0, c22: 11.0, c32: 12.0,
        c03: 13.0, c13: 14.0, c23: 15.0, c33: 16.0,
    };
    let result = Vector3 { x: 89.0 / 128.0, y: 102.0 / 128.0, z: 115.0 / 128.0 };
    assert!(near3(lhs * rhs, result));
}

#[test]
fn translation() {
    let lhs: Vector3<f32> = Vector3::new(0.0, 0.0, 0.0);
    let rhs = Matrix4::from_translation(&Vector3::new(10.0, 0.0, 0.0));
    assert!(near3(lhs * rhs, Vector3::new(10.0, 0.0, 0.0)));
}

#[test]
fn scale() {
    let lhs: Vector3<f32> = Vector3::new(2.0, 5.0, 10.0);
    let rhs = Matrix4::from_scale(2.0);
    assert!(near3(lhs * rhs, Vector3::new(4.0, 10.0, 20.0)));
}

#[test]
fn vector_multiply_quaternion() {
    let s = std::f32::consts::FRAC_1_SQRT_2;
    let quarter_turn_about_y: Quaternion<f32> = Quaternion { x: 0.0, y: s, z: 0.0, w: s };
    let v = Vector3::new(1.0, 0.0, 0.0);
    assert!(near3(v * quarter_turn_about_y, Vector3::new(0.0, 0.0, 1.0)));
    let expected = v * Matrix4x4::from_quaternion(&quarter_turn_about_y);
    assert!(near3(v * quarter_turn_about_y, expected));
}

const V4_A: Vector4<f32> = Vector4 { x: 2.0, y: 4.0, z: 6.0, w: 8.0 };
const V4_B: Vector4<f32> = Vector4 { x: 5.0, y: 10.0, z: 15.0, w: 20.0 };

#[test]
fn vector4_add() {
    assert!(near4(V4_A + V4_B, Vector4::new(7.0, 14.0, 21.0, 28.0)));
}

#[test]
fn vector4_subtract() {
    assert!(near4(V4_A - V4_B, Vector4::new(-3.0, -6.0, -9.0, -12.0)));
}

#[test]
fn vector4_multiply() {
    let rhs = 5.0;
    assert!(near4(V4_A * rhs, Vector4::new(10.0, 20.0, 30.0, 40.0)));
}

#[test]
fn vector4_divide() {
    let rhs = 5.0;
    assert!(near4(V4_A / rhs, Vector4::new(0.4, 0.8, 1.2, 1.6)));
}

#[test]
fn vector4_dot() {
    assert!(ulps_eq(V4_A.dot(&V4_B), 300.0));
}

#[test]
fn vector4_multiply_matrix4() {
    let lhs: Vector4<f32> = Vector4::new(2.0, 4.0, 6.0, 1.0);
    let rhs: Matrix4<f32> = Matrix4 {
        c00: 1.0, c10: 2.0, c20: 3.0, c30: 4.0,
        c01: 5.0, c11: 6.0, c21: 7.0, c31: 8.0,
        c02: 9.0, c12: 10.0, c22: 11.0, c32: 12.0,
        c03: 13.0, c13: 14.0, c23: 15.0, c33: 16.0,
    };
    assert!(near4(lhs * rhs, Vector4 { x: 89.0, y: 102.0, z: 115.0, w: 128.0 }));
}
