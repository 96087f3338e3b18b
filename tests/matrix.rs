use ezcgmath::matrix::{Matrix2x2, Matrix3x3, Matrix4x4};
use ezcgmath::quaternion::Quaternion;
use ezcgmath::Degrees;

/// Equal within `f32::EPSILON`, or within four units in the last place.
fn ulps_eq(a: f32, b: f32) -> bool {
    if (a - b).abs() <= f32::EPSILON {
        return true;
    }
    if a.is_sign_negative() != b.is_sign_negative() {
        return false;
    }
    ((a.to_bits() as i64) - (b.to_bits() as i64)).abs() <= 4
}

fn all_near(a: &[f32], b: &[f32]) -> bool {
    a.len() == b.len() && a.iter().zip(b.iter()).all(|(x, y)| ulps_eq(*x, *y))
}

fn fields2(m: &Matrix2x2<f32>) -> [f32; 4] {
    [m.c00, m.c10, m.c01, m.c11]
}

fn fields3(m: &Matrix3x3<f32>) -> [f32; 9] {
    [m.c00, m.c10, m.c20, m.c01, m.c11, m.c21, m.c02, m.c12, m.c22]
}

fn fields4(m: &Matrix4x4<f32>) -> [f32; 16] {
    [
        m.c00, m.c10, m.c20, m.c30, m.c01, m.c11, m.c21, m.c31,
        m.c02, m.c12, m.c22, m.c32, m.c03, m.c13, m.c23, m.c33,
    ]
}

fn near2(a: Matrix2x2<f32>, b: Matrix2x2<f32>) -> bool {
    all_near(&fields2(&a), &fields2(&b))
}

fn near3(a: Matrix3x3<f32>, b: Matrix3x3<f32>) -> bool {
    all_near(&fields3(&a), &fields3(&b))
}

fn near4(a: Matrix4x4<f32>, b: Matrix4x4<f32>) -> bool {
    all_near(&fields4(&a), &fields4(&b))
}

const M2_A: Matrix2x2<f32> = Matrix2x2 {
    c00: 1.0, c10: 2.0,
    c01: 3.0, c11: 4.0,
};

const M2_B: Matrix2x2<f32> = Matrix2x2 {
    c00: 5.0, c10: 6.0,
    c01: 7.0, c11: 8.0,
};

#[test]
fn matrix_add() {
    let result = Matrix2x2 { c00: 6.0, c10: 8.0, c01: 10.0, c11: 12.0 };
    assert!(near2(M2_A + M2_B, result));
}

#[test]
fn matrix_subtract() {
    let result = Matrix2x2 { c00: -4.0, c10: -4.0, c01: -4.0, c11: -4.0 };
    assert!(near2(M2_A - M2_B, result));
}

#[test]
fn matrix_multiply_scalar() {
    let scalar = 2.0;
    let result = Matrix2x2 { c00: 2.0, c10: 4.0, c01: 6.0, c11: 8.0 };
    assert!(near2(M2_A * scalar, result));
}

#[test]
fn matrix_multiply_matrix() {
    let result = Matrix2x2 { c00: 19.0, c10: 22.0, c01: 43.0, c11: 50.0 };
    assert!(near2(M2_A * M2_B, result));
}

#[test]
fn matrix_determinant() {
    assert!(ulps_eq(M2_A.determinant(), -2.0));
    assert!(ulps_eq(M2_B.determinant(), -2.0));
}

const M3_A: Matrix3x3<f32> = Matrix3x3 {
    c00: 1.0, c10: 2.0, c20: 3.0,
    c01: 4.0, c11: 5.0, c21: 6.0,
    c02: 7.0, c12: 8.0, c22: 9.0,
};

const M3_B: Matrix3x3<f32> = Matrix3x3 {
    c00: 10.0, c10: 11.0, c20: 12.0,
    c01: 13.0, c11: 14.0, c21: 15.0,
    c02: 16.0, c12: 17.0, c22: 18.0,
};

#[test]
fn matrix3x3_add() {
    let result = Matrix3x3 {
        c00: 11.0, c10: 13.0, c20: 15.0,
        c01: 17.0, c11: 19.0, c21: 21.0,
        c02: 23.0, c12: 25.0, c22: 27.0,
    };
    assert!(near3(M3_A + M3_B, result));
}

#[test]
fn matrix3x3_subtract() {
    let result = Matrix3x3 {
        c00: -9.0, c10: -9.0, c20: -9.0,
        c01: -9.0, c11: -9.0, c21: -9.0,
        c02: -9.0, c12: -9.0, c22: -9.0,
    };
    assert!(near3(M3_A - M3_B, result));
}

#[test]
fn matrix3x3_multiply_scalar() {
    let scalar = 2.0;
    let result = Matrix3x3 {
        c00: 2.0, c10: 4.0, c20: 6.0,
        c01: 8.0, c11: 10.0, c21: 12.0,
        c02: 14.0, c12: 16.0, c22: 18.0,
    };
    assert!(near3(M3_A * scalar, result));
}

#[test]
fn matrix3x3_multiply_matrix() {
    let result = Matrix3x3 {
        c00: 84.0, c10: 90.0, c20: 96.0,
        c01: 201.0, c11: 216.0, c21: 231.0,
        c02: 318.0, c12: 342.0, c22: 366.0,
    };
    assert!(near3(M3_A * M3_B, result));
}

#[test]
fn matrix_matrix_of_minors() {
    let m: Matrix3x3<f32> = Matrix3x3 {
        c00: 1.0, c10: 2.0, c20: 1.0,
        c01: 6.0, c11: -1.0, c21: 0.0,
        c02: -1.0, c12: -2.0, c22: -1.0,
    };
    let expected = Matrix3x3 {
        c00: 1.0, c10: -6.0, c20: -13.0,
        c01: 0.0, c11: 0.0, c21: 0.0,
        c02: 1.0, c12: -6.0, c22: -13.0,
    };
    assert!(near3(m.matrix_of_minors(), expected));
}

#[test]
fn matrix_matrix_of_cofactors() {
    let a = M3_A;
    let b = M3_B;
    assert!(near3(a.matrix_of_cofactors(), Matrix3x3 {
        c00: a.c00, c10: -a.c10, c20: a.c20,
        c01: -a.c01, c11: a.c11, c21: -a.c21,
        c02: a.c02, c12: -a.c12, c22: a.c22,
    }));
    assert!(near3(b.matrix_of_cofactors(), Matrix3x3 {
        c00: b.c00, c10: -b.c10, c20: b.c20,
        c01: -b.c01, c11: b.c11, c21: -b.c21,
        c02: b.c02, c12: -b.c12, c22: b.c22,
    }));
}

#[test]
fn matrix_transpose() {
    let a = M3_A;
    let b = M3_B;
    assert!(near3(a.transpose(), Matrix3x3 {
        c00: a.c00, c10: a.c01, c20: a.c02,
        c01: a.c10, c11: a.c11, c21: a.c12,
        c02: a.c20, c12: a.c21, c22: a.c22,
    }));
    assert!(near3(b.transpose(), Matrix3x3 {
        c00: b.c00, c10: b.c01, c20: b.c02,
        c01: b.c10, c11: b.c11, c21: b.c12,
        c02: b.c20, c12: b.c21, c22: b.c22,
    }));
}

#[test]
fn matrix3x3_determinant() {
    assert!(ulps_eq(M3_A.determinant(), 0.0));
    assert!(ulps_eq(M3_B.determinant(), 0.0));
}

#[test]
fn matrix_inverse() {
    let m: Matrix3x3<f32> = Matrix3x3 {
        c00: 12.0, c10: 68.0, c20: 8.0,
        c01: 68.0, c11: 98.0, c21: 6.0,
        c02: 7.0, c12: 59.0, c22: 86.0,
    };
    let expected = Matrix3x3 {
        c00: -0.02975909654, c10: 0.01981482574, c20: 0.001385858348,
        c01: 0.02139971693, c11: -0.003597334434, c21: -0.001739694521,
        c02: -0.01225894911, c12: 0.0008551040868, c22: 0.01270861591,
    };
    assert!(near3(m.inverse(), expected));
}

const M4_A: Matrix4x4<f32> = Matrix4x4 {
    c00: 1.0, c10: 2.0, c20: 3.0, c30: 4.0,
    c01: 5.0, c11: 6.0, c21: 7.0, c31: 8.0,
    c02: 9.0, c12: 10.0, c22: 11.0, c32: 12.0,
    c03: 13.0, c13: 14.0, c23: 15.0, c33: 16.0,
};

const M4_B: Matrix4x4<f32> = Matrix4x4 {
    c00: 17.0, c10: 18.0, c20: 19.0, c30: 20.0,
    c01: 21.0, c11: 22.0, c21: 23.0, c31: 24.0,
    c02: 25.0, c12: 26.0, c22: 27.0, c32: 28.0,
    c03: 29.0, c13: 30.0, c23: 31.0, c33: 32.0,
};

#[test]
fn matrix4x4_add() {
    let result = Matrix4x4 {
        c00: 18.0, c10: 20.0, c20: 22.0, c30: 24.0,
        c01: 26.0, c11: 28.0, c21: 30.0, c31: 32.0,
        c02: 34.0, c12: 36.0, c22: 38.0, c32: 40.0,
        c03: 42.0, c13: 44.0, c23: 46.0, c33: 48.0,
    };
    assert!(near4(M4_A + M4_B, result));
}

#[test]
fn matrix4x4_subtract() {
    let result = Matrix4x4 {
        c00: -16.0, c10: -16.0, c20: -16.0, c30: -16.0,
        c01: -16.0, c11: -16.0, c21: -16.0, c31: -16.0,
        c02: -16.0, c12: -16.0, c22: -16.0, c32: -16.0,
        c03: -16.0, c13: -16.0, c23: -16.0, c33: -16.0,
    };
    assert!(near4(M4_A - M4_B, result));
}

#[test]
fn matrix4x4_multiply_scalar() {
    let scalar = 2.0;
    let result = Matrix4x4 {
        c00: 2.0, c10: 4.0, c20: 6.0, c30: 8.0,
        c01: 10.0, c11: 12.0, c21: 14.0, c31: 16.0,
        c02: 18.0, c12: 20.0, c22: 22.0, c32: 24.0,
        c03: 26.0, c13: 28.0, c23: 30.0, c33: 32.0,
    };
    assert!(near4(M4_A * scalar, result));
}

#[test]
fn matrix4x4_multiply_matrix() {
    let result = Matrix4x4 {
        c00: 250.0, c10: 260.0, c20: 270.0, c30: 280.0,
        c01: 618.0, c11: 644.0, c21: 670.0, c31: 696.0,
        c02: 986.0, c12: 1028.0, c22: 1070.0, c32: 1112.0,
        c03: 1354.0, c13: 1412.0, c23: 1470.0, c33: 1528.0,
    };
    assert!(near4(M4_A * M4_B, result));
}

/// The perspective projection for a field of view in degrees: the tangent of
/// half the angle is taken here, the matrix is built by the library.
fn perspective(fov: Degrees<f32>, aspect_ratio: f32, near: f32, far: f32) -> Matrix4x4<f32> {
    let half = fov.0.to_radians() / 2.0;
    Matrix4x4::perspective_from_tangent(half.tan(), aspect_ratio, near, far)
}

fn verify_proj(matrix: Matrix4x4<f32>, fov: Degrees<f32>, aspect_ratio: f32, near: f32, far: f32) {
    let x_scale = 2.0 / (fov.0.to_radians() / 2.0).tan();
    let y_scale = x_scale / aspect_ratio;
    let z_scale = far / (far - near);
    let z_translation = -near * far / (far - near);
    assert!(ulps_eq(matrix.c00, x_scale));
    assert!(ulps_eq(matrix.c11, y_scale));
    assert!(ulps_eq(matrix.c22, z_scale));
    assert!(ulps_eq(matrix.c32, 1.0));
    assert!(ulps_eq(matrix.c33, z_translation));
}

#[test]
fn projection_matrix_math_normal() {
    let normal_matrix = perspective(Degrees(90.0), 2560.0 / 1440.0, 0.1, 1000.0);
    verify_proj(normal_matrix, Degrees(90.0), 2560.0 / 1440.0, 0.1, 1000.0);
}

#[test]
fn projection_matrix_math_zeroed_fov() {
    let zeroed_fov = perspective(Degrees(0.0), 0.1, 0.1, 1000.0);
    verify_proj(zeroed_fov, Degrees(0.0), 2560.0 / 1440.0, 0.1, 1000.0);
}

#[test]
fn projection_matrix_math_negated_aspect() {
    let negated_aspect = perspective(Degrees(90.0), -2560.0 / 1440.0, 0.1, 1000.0);
    verify_proj(negated_aspect, Degrees(90.0), -2560.0 / 1440.0, 0.1, 1000.0);
}

#[test]
fn projection_matrix_math_negated_far_plane() {
    let negated_far_plane = perspective(Degrees(90.0), 2560.0 / 1440.0, 0.1, -1000.0);
    verify_proj(negated_far_plane, Degrees(90.0), 2560.0 / 1440.0, 0.1, -1000.0);
}

#[test]
fn projection_matrix_math_negated_near_plane() {
    let negated_near_plane = perspective(Degrees(90.0), 2560.0 / 1440.0, -0.1, 1000.0);
    verify_proj(negated_near_plane, Degrees(90.0), 2560.0 / 1440.0, -0.1, 1000.0);
}

#[test]
fn projection_matrix_math_negated_fov() {
    let negated_fov = perspective(Degrees(-90.0), 2560.0 / 1440.0, 0.1, 1000.0);
    verify_proj(negated_fov, Degrees(-90.0), 2560.0 / 1440.0, 0.1, 1000.0);
}

fn verify_ortho(matrix: Matrix4x4<f32>, top: f32, bottom: f32, left: f32, right: f32, near: f32, far: f32) {
    assert!(ulps_eq(matrix.c00, 2.0 / (right - left)));
    assert!(ulps_eq(matrix.c11, 2.0 / (top - bottom)));
    assert!(ulps_eq(matrix.c22, 1.0 / (far - near)));
    assert!(ulps_eq(matrix.c23, -near / (far - near)));
    assert!(ulps_eq(matrix.c33, 1.0));
}

#[test]
fn orthographic_matrix_math() {
    let normal_matrix = Matrix4x4::orthographic_projection(-5.0, 5.0, -5.0, 5.0, 0.1, 1000.0);
    verify_ortho(normal_matrix, -5.0, 5.0, -5.0, 5.0, 0.1, 1000.0);
}

#[test]
fn orthographic_matrix_math_negated_height() {
    let negated_height = Matrix4x4::orthographic_projection(5.0, -5.0, -5.0, 5.0, 0.1, 1000.0);
    verify_ortho(negated_height, 5.0, -5.0, -5.0, 5.0, 0.1, 1000.0);
}

#[test]
fn orthographic_matrix_math_negated_width() {
    let negated_width = Matrix4x4::orthographic_projection(-5.0, 5.0, 5.0, -5.0, 0.1, 1000.0);
    verify_ortho(negated_width, -5.0, 5.0, 5.0, -5.0, 0.1, 1000.0);
}

#[test]
fn orthographic_matrix_math_negated_planes() {
    let negated_planes = Matrix4x4::orthographic_projection(-5.0, 5.0, -5.0, 5.0, 0.1, -1000.0);
    verify_ortho(negated_planes, -5.0, 5.0, -5.0, 5.0, 0.1, -1000.0);
}

#[test]
fn from_quaternion() {
    let q: Quaternion<f32> = Quaternion {
        x: 0.18257418583505536,
        y: 0.3651483716701107,
        z: 0.5477225575051661,
        w: 0.7302967433402214,
    };
    let result = Matrix4x4 {
        c00: 0.13333333333333353, c10: -0.6666666666666666, c20: 0.7333333333333332, c30: 0.0,
        c01: 0.9333333333333332, c11: 0.3333333333333335, c21: 0.13333333333333336, c31: 0.0,
        c02: -0.33333333333333326, c12: 0.6666666666666665, c22: 0.6666666666666667, c32: 0.0,
        c03: 0.0, c13: 0.0, c23: 0.0, c33: 1.0,
    };
    assert!(near4(Matrix4x4::from_quaternion(&q), result));
}

#[test]
fn matrix4x4_matrix_of_minors() {
    let m: Matrix4x4<f32> = Matrix4x4 {
        c00: 13.0, c10: 72.0, c20: 43.0, c30: 34.0,
        c01: 3.0, c11: 56.0, c21: 17.0, c31: 38.0,
        c02: 9.0, c12: 10.0, c22: 13.0, c32: 2.0,
        c03: 1.0, c13: 4.0, c23: 15.0, c33: 36.0,
    };
    let expected = Matrix4x4 {
        c00: 22268.0, c10: 476.0, c20: -15988.0, c30: -6096.0,
        c01: 19732.0, c11: -4004.0, c21: -17724.0, c31: -6392.0,
        c02: -50880.0, c12: -1512.0, c22: 17696.0, c32: 6128.0,
        c03: -2624.0, c13: 4592.0, c23: 4592.0, c33: -4920.0,
    };
    assert!(near4(m.matrix_of_minors(), expected));
}

#[test]
fn matrix4x4_matrix_of_cofactors() {
    let a = M4_A;
    let b = M4_B;
    assert!(near4(a.matrix_of_cofactors(), Matrix4x4 {
        c00: a.c00, c10: -a.c10, c20: a.c20, c30: -a.c30,
        c01: -a.c01, c11: a.c11, c21: -a.c21, c31: a.c31,
        c02: a.c02, c12: -a.c12, c22: a.c22, c32: -a.c32,
        c03: -a.c03, c13: a.c13, c23: -a.c23, c33: a.c33,
    }));
    assert!(near4(b.matrix_of_cofactors(), Matrix4x4 {
        c00: b.c00, c10: -b.c10, c20: b.c20, c30: -b.c30,
        c01: -b.c01, c11: b.c11, c21: -b.c21, c31: b.c31,
        c02: b.c02, c12: -b.c12, c22: b.c22, c32: -b.c32,
        c03: -b.c03, c13: b.c13, c23: -b.c23, c33: b.c33,
    }));
}

#[test]
fn matrix4x4_transpose() {
    let a = M4_A;
    let b = M4_B;
    assert!(near4(a.transpose(), Matrix4x4 {
        c00: a.c00, c10: a.c01, c20: a.c02, c30: a.c03,
        c01: a.c10, c11: a.c11, c21: a.c12, c31: a.c13,
        c02: a.c20, c12: a.c21, c22: a.c22, c32: a.c23,
        c03: a.c30, c13: a.c31, c23: a.c32, c33: a.c33,
    }));
    assert!(near4(b.transpose(), Matrix4x4 {
        c00: b.c00, c10: b.c01, c20: b.c02, c30: b.c03,
        c01: b.c10, c11: b.c11, c21: b.c12, c31: b.c13,
        c02: b.c20, c12: b.c21, c22: b.c22, c32: b.c23,
        c03: b.c30, c13: b.c31, c23: b.c32, c33: b.c33,
    }));
}

#[test]
fn matrix4x4_determinant() {
    assert!(ulps_eq(M4_A.determinant(), 0.0));
    assert!(ulps_eq(M4_B.determinant(), 0.0));
}

#[test]
fn matrix4x4_inverse() {
    let m: Matrix4x4<f32> = Matrix4x4 {
        c00: 42.0, c10: 5.0, c20: 16.0, c30: 53.0,
        c01: -21.0, c11: 125.0, c21: 6.0, c31: -65.0,
        c02: -6.0, c12: 53.0, c22: 23.0, c32: -32.0,
        c03: 63.0, c13: -3.0, c23: -23.0, c33: 51.0,
    };
    let expected = Matrix4x4 {
        c00: -0.02144504449, c10: -0.01894554558, c20: 0.04831673192, c30: 0.02845612386,
        c01: 0.01240283943, c11: 0.0147995753, c21: -0.01748989292, c31: -0.005001071941,
        c02: 0.00992408168, c12: -0.01415471363, c22: 0.03197835075, c32: -0.008288735115,
        c03: 0.03169608235, c13: 0.01789038596, c23: -0.04629258279, c33: -0.01957607699,
    };
    assert!(near4(m.inverse(), expected));
}

use ezcgmath::matrix::Matrix1x3;

const M13_A: Matrix1x3<f32> = Matrix1x3 { c00: 1.0, c01: 2.0, c02: 3.0 };
const M13_B: Matrix1x3<f32> = Matrix1x3 { c00: 4.0, c01: 5.0, c02: 6.0 };

fn near1x3(a: Matrix1x3<f32>, b: Matrix1x3<f32>) -> bool {
    all_near(&[a.c00, a.c01, a.c02], &[b.c00, b.c01, b.c02])
}

#[test]
fn matrix1x3_add() {
    assert!(near1x3(M13_A + M13_B, Matrix1x3 { c00: 5.0, c01: 7.0, c02: 9.0 }));
}

#[test]
fn matrix1x3_subtract() {
    assert!(near1x3(M13_A - M13_B, Matrix1x3 { c00: -3.0, c01: -3.0, c02: -3.0 }));
}

#[test]
fn matrix1x3_multiply_scalar() {
    assert!(near1x3(M13_A * 2.0, Matrix1x3 { c00: 2.0, c01: 4.0, c02: 6.0 }));
}

#[test]
fn matrix3x3_times_column() {
    // Field c0J of the result: the fields cIJ of the matrix against the column.
    let r = M3_A * M13_A;
    assert!(near1x3(r, Matrix1x3 { c00: 14.0, c01: 32.0, c02: 50.0 }));
}

#[test]
fn identities_are_diagonal_ones() {
    let i2: Matrix2x2<f32> = Matrix2x2::identity();
    assert_eq!(fields2(&i2), [1.0, 0.0, 0.0, 1.0]);
    let i3: Matrix3x3<f32> = Matrix3x3::identity();
    assert_eq!(fields3(&i3), [1.0, 0.0, 0.0, 0.0, 1.0, 0.0, 0.0, 0.0, 1.0]);
    let i4: Matrix4x4<f32> = Matrix4x4::identity();
    assert_eq!(
        fields4(&i4),
        [1.0, 0.0, 0.0, 0.0, 0.0, 1.0, 0.0, 0.0, 0.0, 0.0, 1.0, 0.0, 0.0, 0.0, 0.0, 1.0]
    );
}

#[test]
fn identity_is_neutral_for_product() {
    assert_eq!(fields3(&(M3_A * Matrix3x3::identity())), fields3(&M3_A));
    assert_eq!(fields4(&(Matrix4x4::identity() * M4_B)), fields4(&M4_B));
}

#[test]
fn transpose_twice_round_trips() {
    assert_eq!(fields3(&M3_B.transpose().transpose()), fields3(&M3_B));
    let m: Matrix4x4<f32> = Matrix4x4 {
        c00: 42.0, c10: 5.0, c20: 16.0, c30: 53.0,
        c01: -21.0, c11: 125.0, c21: 6.0, c31: -65.0,
        c02: -6.0, c12: 53.0, c22: 23.0, c32: -32.0,
        c03: 63.0, c13: -3.0, c23: -23.0, c33: 51.0,
    };
    assert_eq!(fields4(&m.transpose().transpose()), fields4(&m));
}

#[test]
fn inverse_times_matrix_is_identity() {
    let m3: Matrix3x3<f32> = Matrix3x3 {
        c00: 12.0, c10: 68.0, c20: 8.0,
        c01: 68.0, c11: 98.0, c21: 6.0,
        c02: 7.0, c12: 59.0, c22: 86.0,
    };
    let p3 = fields3(&(m3.inverse() * m3));
    let i3 = fields3(&Matrix3x3::identity());
    assert!(p3.iter().zip(i3.iter()).all(|(a, b)| (a - b).abs() < 1e-5));
    let m4: Matrix4x4<f32> = Matrix4x4 {
        c00: 42.0, c10: 5.0, c20: 16.0, c30: 53.0,
        c01: -21.0, c11: 125.0, c21: 6.0, c31: -65.0,
        c02: -6.0, c12: 53.0, c22: 23.0, c32: -32.0,
        c03: 63.0, c13: -3.0, c23: -23.0, c33: 51.0,
    };
    let p4 = fields4(&(m4.inverse() * m4));
    let i4 = fields4(&Matrix4x4::identity());
    assert!(p4.iter().zip(i4.iter()).all(|(a, b)| (a - b).abs() < 1e-5));
}

#[test]
fn singular_inverse_is_not_finite() {
    let inverse = M3_A.inverse();
    assert!(fields3(&inverse).iter().all(|v| !v.is_finite()));
    let inverse = M4_A.inverse();
    assert!(fields4(&inverse).iter().all(|v| !v.is_finite()));
}

#[test]
fn determinant_of_identity_is_one() {
    assert_eq!(Matrix3x3::<f32>::identity().determinant(), 1.0);
    assert_eq!(Matrix4x4::<f32>::identity().determinant(), 1.0);
}

#[test]
fn determinant_with_repeated_row_or_column_is_zero() {
    let rows: Matrix3x3<f32> = Matrix3x3 {
        c00: 3.0, c10: -2.0, c20: 7.0,
        c01: 5.0, c11: 1.0, c21: 4.0,
        c02: 3.0, c12: -2.0, c22: 7.0,
    };
    assert_eq!(rows.determinant(), 0.0);
    assert_eq!(rows.transpose().determinant(), 0.0);
}

#[test]
fn determinant_exact_values() {
    let m3: Matrix3x3<f32> = Matrix3x3 {
        c00: 2.0, c10: 0.0, c20: 1.0,
        c01: 1.0, c11: 3.0, c21: 2.0,
        c02: 1.0, c12: 1.0, c22: 1.0,
    };
    // 2 (3 - 2) - 0 (1 - 2) + 1 (1 - 3)
    assert_eq!(m3.determinant(), 0.0);
    let m3b: Matrix3x3<f32> = Matrix3x3 {
        c00: 2.0, c10: 0.0, c20: 1.0,
        c01: 1.0, c11: 3.0, c21: 2.0,
        c02: 1.0, c12: 1.0, c22: 4.0,
    };
    // 2 (12 - 2) - 0 (4 - 2) + 1 (1 - 3)
    assert_eq!(m3b.determinant(), 18.0);
    let m4: Matrix4x4<f32> = Matrix4x4 {
        c00: 2.0, c10: 0.0, c20: 0.0, c30: 0.0,
        c01: 0.0, c11: 3.0, c21: 0.0, c31: 0.0,
        c02: 0.0, c12: 0.0, c22: 4.0, c32: 0.0,
        c03: 7.0, c13: 8.0, c23: 9.0, c33: 5.0,
    };
    assert_eq!(m4.determinant(), 120.0);
}

#[test]
fn affine_constructors() {
    let t: Matrix4x4<f32> = Matrix4x4::from_translation(&ezcgmath::vector::Vector3::new(1.0, 2.0, 3.0));
    assert_eq!(
        fields4(&t),
        [1.0, 0.0, 0.0, 0.0, 0.0, 1.0, 0.0, 0.0, 0.0, 0.0, 1.0, 0.0, 1.0, 2.0, 3.0, 1.0]
    );
    let s: Matrix4x4<f32> = Matrix4x4::from_nonuniform_scale(&ezcgmath::vector::Vector3::new(2.0, 3.0, 4.0));
    assert_eq!(
        fields4(&s),
        [2.0, 0.0, 0.0, 0.0, 0.0, 3.0, 0.0, 0.0, 0.0, 0.0, 4.0, 0.0, 0.0, 0.0, 0.0, 1.0]
    );
    let u: Matrix4x4<f32> = Matrix4x4::from_scale(5.0);
    assert_eq!(
        fields4(&u),
        [5.0, 0.0, 0.0, 0.0, 0.0, 5.0, 0.0, 0.0, 0.0, 0.0, 5.0, 0.0, 0.0, 0.0, 0.0, 1.0]
    );
}

#[test]
fn perspective_exact_fields() {
    let m = Matrix4x4::perspective_from_tangent(0.5f32, 2.0, 1.0, 3.0);
    assert_eq!(
        fields4(&m),
        [4.0, 0.0, 0.0, 0.0, 0.0, 2.0, 0.0, 0.0, 0.0, 0.0, 1.5, 1.0, 0.0, 0.0, 0.0, -1.5]
    );
    let negative = Matrix4x4::perspective_from_tangent(-0.5f32, -2.0, 1.0, 3.0);
    assert_eq!(negative.c00, -4.0);
    assert_eq!(negative.c11, 2.0);
    assert_eq!(negative.c33, -1.5);
}

#[test]
fn orthographic_exact_fields() {
    let m = Matrix4x4::orthographic_projection(2.0f32, -2.0, -4.0, 4.0, 1.0, 5.0);
    assert_eq!(
        fields4(&m),
        [0.25, 0.0, 0.0, 0.0, 0.0, 0.5, 0.0, 0.0, 0.0, 0.0, 0.25, 0.0, 0.0, 0.0, -0.25, 1.0]
    );
}

#[test]
fn quaternion_and_matrix_compose_either_side() {
    let q: Quaternion<f32> = Quaternion { x: 0.0, y: 0.0, z: 0.0, w: 1.0 };
    assert_eq!(fields4(&(q * M4_A)), fields4(&M4_A));
    assert_eq!(fields4(&(M4_B * q)), fields4(&M4_B));
    let r: Quaternion<f32> = Quaternion { x: 0.5, y: 0.5, z: 0.5, w: 0.5 };
    let expected = Matrix4x4::from_quaternion(&r) * M4_A;
    assert_eq!(fields4(&(r * M4_A)), fields4(&expected));
}

#[test]
fn determinant4_with_repeated_row_or_column_is_zero() {
    let m: Matrix4x4<f32> = Matrix4x4 {
        c00: 3.0, c10: -2.0, c20: 7.0, c30: 1.0,
        c01: 5.0, c11: 1.0, c21: 4.0, c31: -6.0,
        c02: 2.0, c12: 9.0, c22: -3.0, c32: 8.0,
        c03: 5.0, c13: 1.0, c23: 4.0, c33: -6.0,
    };
    assert_eq!(m.determinant(), 0.0);
    assert_eq!(m.transpose().determinant(), 0.0);
}

#[test]
fn adjugate_times_matrix_is_determinant_times_identity() {
    let m: Matrix3x3<f32> = Matrix3x3 {
        c00: 2.0, c10: 0.0, c20: 1.0,
        c01: 1.0, c11: 3.0, c21: 2.0,
        c02: 1.0, c12: 1.0, c22: 4.0,
    };
    let adjugate = m.matrix_of_minors().matrix_of_cofactors().transpose();
    assert_eq!(fields3(&(adjugate * m)), fields3(&(Matrix3x3::identity() * m.determinant())));
}
