//! Laws that relate the operations of this crate to each other.
use vstd::prelude::*;
use crate::integers::{
    lemma_cancel_rows01,
    lemma_cancel_rows02,
    lemma_cancel_rows12,
    lemma_cancel_cols01,
    lemma_cancel_cols02,
    lemma_cancel_cols12,
    lemma_adjugate3_integers,
    lemma_adjugate4_integers,
    lemma_commute,
    lemma_negate,
    lemma_det4_flat,
    lemma_det4_cancel_rows01,
    lemma_det4_cancel_cols01,
    lemma_det4_cancel_rows02,
    lemma_det4_cancel_cols02,
    lemma_det4_cancel_rows03,
    lemma_det4_cancel_cols03,
    lemma_det4_cancel_rows12,
    lemma_det4_cancel_cols12,
    lemma_det4_cancel_rows13,
    lemma_det4_cancel_cols13,
    lemma_det4_cancel_rows23,
    lemma_det4_cancel_cols23,
};
use crate::scalar::{Scalar, unital, integer_model, lit, sadd, smul, sneg};
use crate::vector::{Vector3, Vector4, dot3, dot4, vplus3, transform_point};
use crate::matrix::{
    Matrix2x2, Matrix3x3, Matrix4x4, product3, product4, transpose2, transpose3, transpose4,
    identity3, identity4, det3, det4, scaled3, scaled4, affine, splat, minors3, cofactors3, submatrix2, minors4, cofactors4, submatrix3,
};

verus! {

/// Row `r` of `m`: the fields `c0r`, `c1r`, `c2r`.
pub open spec fn row3<T>(m: Matrix3x3<T>, r: int) -> Vector3<T> {
    Vector3 { x: m.field(0, r), y: m.field(1, r), z: m.field(2, r) }
}

/// Column `c` of `m`: the fields `cc0`, `cc1`, `cc2`.
pub open spec fn column3<T>(m: Matrix3x3<T>, c: int) -> Vector3<T> {
    Vector3 { x: m.field(c, 0), y: m.field(c, 1), z: m.field(c, 2) }
}

/// Row `r` of `m`: the fields `c0r` to `c3r`.
pub open spec fn row4<T>(m: Matrix4x4<T>, r: int) -> Vector4<T> {
    Vector4 { x: m.field(0, r), y: m.field(1, r), z: m.field(2, r), w: m.field(3, r) }
}

/// Column `c` of `m`: the fields `cc0` to `cc3`.
pub open spec fn column4<T>(m: Matrix4x4<T>, c: int) -> Vector4<T> {
    Vector4 { x: m.field(c, 0), y: m.field(c, 1), z: m.field(c, 2), w: m.field(c, 3) }
}

/// The entry of a 3 x 3 product in row `r` and column `c` is the dot product
/// of row `r` of the left factor with column `c` of the right one.
pub proof fn lemma_product3_entry<T: Scalar>(a: Matrix3x3<T>, b: Matrix3x3<T>, r: int, c: int)
    requires
        0 <= r < 3,
        0 <= c < 3,
    ensures
        product3(a, b).field(c, r) == dot3(row3(a, r), column3(b, c)),
{
}

/// The entry of a 4 x 4 product in row `r` and column `c` is the dot product
/// of row `r` of the left factor with column `c` of the right one.
pub proof fn lemma_product4_entry<T: Scalar>(a: Matrix4x4<T>, b: Matrix4x4<T>, r: int, c: int)
    requires
        0 <= r < 4,
        0 <= c < 4,
    ensures
        product4(a, b).field(c, r) == dot4(row4(a, r), column4(b, c)),
{
}

/// Transposing twice gives back the matrix.
pub proof fn lemma_transpose2_involution<T>(m: Matrix2x2<T>)
    ensures
        transpose2(transpose2(m)) == m,
{
}

/// Transposing twice gives back the matrix.
pub proof fn lemma_transpose3_involution<T>(m: Matrix3x3<T>)
    ensures
        transpose3(transpose3(m)) == m,
{
}

/// Transposing twice gives back the matrix.
pub proof fn lemma_transpose4_involution<T>(m: Matrix4x4<T>)
    ensures
        transpose4(transpose4(m)) == m,
{
}

/// The identity has determinant one, wherever zero and one behave exactly.
pub proof fn lemma_det3_identity<T: Scalar>()
    requires
        unital::<T>(),
    ensures
        det3(identity3::<T>()) == lit::<T>(1),
{
}

/// The identity has determinant one, wherever zero and one behave exactly.
pub proof fn lemma_det4_identity<T: Scalar>()
    requires
        unital::<T>(),
    ensures
        det4(identity4::<T>()) == lit::<T>(1),
{
}

/// A point moved through a translation matrix lands at the point plus the
/// translation, wherever zero and one behave exactly.
pub proof fn lemma_translation_moves_point<T: Scalar>(v: Vector3<T>, t: Vector3<T>)
    requires
        unital::<T>(),
    ensures
        transform_point(v, affine(splat(lit::<T>(1)), t)) == vplus3(v, t),
{
}

/// The integer that `h` gives the determinant of a 3 x 3 matrix is the
/// expansion `a (e i - h f) - b (d i - g f) + c (d h - g e)` of the integers
/// `h` gives its fields, read by rows.
pub proof fn lemma_det3_expansion<T: Scalar>(h: spec_fn(T) -> int, m: Matrix3x3<T>)
    requires
        integer_model(h),
    ensures
        h(det3(m)) == h(m.c00) * (h(m.c11) * h(m.c22) - h(m.c21) * h(m.c12))
            - h(m.c10) * (h(m.c01) * h(m.c22) - h(m.c21) * h(m.c02))
            + h(m.c20) * (h(m.c01) * h(m.c12) - h(m.c11) * h(m.c02)),
{
    let mi = minors3(m);
    let c = cofactors3(mi);
    assert(submatrix2(m, 0, 0) == Matrix2x2 { c00: m.c11, c10: m.c21, c01: m.c12, c11: m.c22 });
    assert(submatrix2(m, 1, 0) == Matrix2x2 { c00: m.c01, c10: m.c21, c01: m.c02, c11: m.c22 });
    assert(submatrix2(m, 2, 0) == Matrix2x2 { c00: m.c01, c10: m.c11, c01: m.c02, c11: m.c12 });
    assert(h(mi.c00) == h(m.c11) * h(m.c22) - h(m.c21) * h(m.c12));
    assert(h(mi.c10) == h(m.c01) * h(m.c22) - h(m.c21) * h(m.c02));
    assert(h(mi.c20) == h(m.c01) * h(m.c12) - h(m.c11) * h(m.c02));
    assert(c.c00 == mi.c00);
    assert(c.c10 == sneg(mi.c10));
    assert(c.c20 == mi.c20);
    assert(h(c.c10) == -h(mi.c10));
    assert(det3(m) == sadd(sadd(smul(m.c00, c.c00), smul(m.c10, c.c10)), smul(m.c20, c.c20)));
    let (a, b, x) = (h(m.c00), h(m.c10), h(m.c20));
    let (d, e, f) = (h(m.c01), h(m.c11), h(m.c21));
    let (g, k, l) = (h(m.c02), h(m.c12), h(m.c22));
    let (p, q, r) = (h(c.c00), h(c.c10), h(c.c20));
    assert(h(det3(m)) == a * p + b * q + x * r);
    assert(a * p + b * q + x * r == a * (e * l - f * k) - b * (d * l - f * g) + x * (d * k - e * g))
        by (nonlinear_arith)
        requires
            p == e * l - f * k,
            q == -(d * l - f * g),
            r == d * k - e * g,
    ;
}

/// A 3 x 3 matrix with two equal rows, or two equal columns, has determinant
/// zero, over a scalar type that computes as the integers do.
pub proof fn lemma_det3_repeated<T: Scalar>(h: spec_fn(T) -> int, m: Matrix3x3<T>, p: int, q: int)
    requires
        integer_model(h),
        0 <= p < q < 3,
        row3(m, p) == row3(m, q) || column3(m, p) == column3(m, q),
    ensures
        det3(m) == lit::<T>(0),
{
    lemma_det3_expansion(h, m);
    let (a, b, c) = (h(m.c00), h(m.c10), h(m.c20));
    let (d, e, f) = (h(m.c01), h(m.c11), h(m.c21));
    let (g, k, l) = (h(m.c02), h(m.c12), h(m.c22));
    let rows01 = a == d && b == e && c == f;
    let rows02 = a == g && b == k && c == l;
    let rows12 = d == g && e == k && f == l;
    let cols01 = a == b && d == e && g == k;
    let cols02 = a == c && d == f && g == l;
    let cols12 = b == c && e == f && k == l;
    assert(rows01 || rows02 || rows12 || cols01 || cols02 || cols12);
    if rows01 {
        lemma_cancel_rows01(a, b, c, g, k, l);
    }
    if rows02 {
        lemma_cancel_rows02(a, b, c, d, e, f);
    }
    if rows12 {
        lemma_cancel_rows12(a, b, c, d, e, f);
    }
    if cols01 {
        lemma_cancel_cols01(a, c, d, f, g, l);
    }
    if cols02 {
        lemma_cancel_cols02(a, b, d, e, g, k);
    }
    if cols12 {
        lemma_cancel_cols12(a, b, d, e, g, k);
    }
    assert(h(det3(m)) == h(lit::<T>(0)));
}

/// The integer that `h` gives the determinant of a 4 x 4 matrix is its
/// expansion along the fields `c00` to `c30`, each minor expanded as in
/// [`lemma_det3_expansion`].
pub proof fn lemma_det4_expansion<T: Scalar>(h: spec_fn(T) -> int, m: Matrix4x4<T>)
    requires
        integer_model(h),
    ensures
        h(det4(m)) == det4_integers(h, m),
{
    let mi = minors4(m);
    let c = cofactors4(mi);
    lemma_det3_expansion(h, submatrix3(m, 0, 0));
    assert(submatrix3(m, 0, 0) == Matrix3x3 { c00: m.c11, c10: m.c21, c20: m.c31, c01: m.c12, c11: m.c22, c21: m.c32, c02: m.c13, c12: m.c23, c22: m.c33 });
    lemma_det3_expansion(h, submatrix3(m, 1, 0));
    assert(submatrix3(m, 1, 0) == Matrix3x3 { c00: m.c01, c10: m.c21, c20: m.c31, c01: m.c02, c11: m.c22, c21: m.c32, c02: m.c03, c12: m.c23, c22: m.c33 });
    lemma_det3_expansion(h, submatrix3(m, 2, 0));
    assert(submatrix3(m, 2, 0) == Matrix3x3 { c00: m.c01, c10: m.c11, c20: m.c31, c01: m.c02, c11: m.c12, c21: m.c32, c02: m.c03, c12: m.c13, c22: m.c33 });
    lemma_det3_expansion(h, submatrix3(m, 3, 0));
    assert(submatrix3(m, 3, 0) == Matrix3x3 { c00: m.c01, c10: m.c11, c20: m.c21, c01: m.c02, c11: m.c12, c21: m.c22, c02: m.c03, c12: m.c13, c22: m.c23 });
    assert(h(c.c10) == -h(mi.c10));
    assert(h(c.c30) == -h(mi.c30));
    assert(det4(m) == sadd(sadd(sadd(smul(m.c00, c.c00), smul(m.c10, c.c10)), smul(m.c20, c.c20)), smul(m.c30, c.c30)));
    let x00 = h(m.c00);
    let x01 = h(m.c01);
    let x02 = h(m.c02);
    let x03 = h(m.c03);
    let x10 = h(m.c10);
    let x11 = h(m.c11);
    let x12 = h(m.c12);
    let x13 = h(m.c13);
    let x20 = h(m.c20);
    let x21 = h(m.c21);
    let x22 = h(m.c22);
    let x23 = h(m.c23);
    let x30 = h(m.c30);
    let x31 = h(m.c31);
    let x32 = h(m.c32);
    let x33 = h(m.c33);
    let (p0, p1, p2, p3) = (h(c.c00), h(c.c10), h(c.c20), h(c.c30));
    assert(h(det4(m)) == x00 * p0 + x10 * p1 + x20 * p2 + x30 * p3);
    assert(x00 * p0 + x10 * p1 + x20 * p2 + x30 * p3 == x00 * (x11 * (x22 * x33 - x32 * x23) - x21 * (x12 * x33 - x32 * x13) + x31 * (x12 * x23 - x22 * x13)) - x10 * (x01 * (x22 * x33 - x32 * x23) - x21 * (x02 * x33 - x32 * x03) + x31 * (x02 * x23 - x22 * x03)) + x20 * (x01 * (x12 * x33 - x32 * x13) - x11 * (x02 * x33 - x32 * x03) + x31 * (x02 * x13 - x12 * x03)) - x30 * (x01 * (x12 * x23 - x22 * x13) - x11 * (x02 * x23 - x22 * x03) + x21 * (x02 * x13 - x12 * x03))) by (nonlinear_arith)
        requires
            p0 == x11 * (x22 * x33 - x32 * x23) - x21 * (x12 * x33 - x32 * x13) + x31 * (x12 * x23 - x22 * x13),
            p1 == -(x01 * (x22 * x33 - x32 * x23) - x21 * (x02 * x33 - x32 * x03) + x31 * (x02 * x23 - x22 * x03)),
            p2 == x01 * (x12 * x33 - x32 * x13) - x11 * (x02 * x33 - x32 * x03) + x31 * (x02 * x13 - x12 * x03),
            p3 == -(x01 * (x12 * x23 - x22 * x13) - x11 * (x02 * x23 - x22 * x03) + x21 * (x02 * x13 - x12 * x03)),
    ;
}

/// The determinant expansion of a 4 x 4 matrix over the integers `h` gives its fields.
pub open spec fn det4_integers<T>(h: spec_fn(T) -> int, m: Matrix4x4<T>) -> int {
    let x00 = h(m.c00);
    let x01 = h(m.c01);
    let x02 = h(m.c02);
    let x03 = h(m.c03);
    let x10 = h(m.c10);
    let x11 = h(m.c11);
    let x12 = h(m.c12);
    let x13 = h(m.c13);
    let x20 = h(m.c20);
    let x21 = h(m.c21);
    let x22 = h(m.c22);
    let x23 = h(m.c23);
    let x30 = h(m.c30);
    let x31 = h(m.c31);
    let x32 = h(m.c32);
    let x33 = h(m.c33);
    x00 * (x11 * (x22 * x33 - x32 * x23) - x21 * (x12 * x33 - x32 * x13) + x31 * (x12 * x23 - x22 * x13)) - x10 * (x01 * (x22 * x33 - x32 * x23) - x21 * (x02 * x33 - x32 * x03) + x31 * (x02 * x23 - x22 * x03)) + x20 * (x01 * (x12 * x33 - x32 * x13) - x11 * (x02 * x33 - x32 * x03) + x31 * (x02 * x13 - x12 * x03)) - x30 * (x01 * (x12 * x23 - x22 * x13) - x11 * (x02 * x23 - x22 * x03) + x21 * (x02 * x13 - x12 * x03))
}

/// The adjugate of `m`: its cofactors, transposed.
pub open spec fn adjugate3<T: Scalar>(m: Matrix3x3<T>) -> Matrix3x3<T> {
    transpose3(cofactors3(minors3(m)))
}

/// The adjugate times the matrix is the determinant times the identity, over a
/// scalar type that computes as the integers do. [`Matrix3x3::inverse`] is
/// this adjugate scaled by one over the determinant.
pub proof fn lemma_adjugate3_times_matrix<T: Scalar>(h: spec_fn(T) -> int, m: Matrix3x3<T>)
    requires
        integer_model(h),
    ensures
        product3(adjugate3(m), m) == scaled3(identity3::<T>(), det3(m)),
{
    lemma_det3_expansion(h, m);
    let mi = minors3(m);
    let c = cofactors3(mi);
    let adj = adjugate3(m);
    let p = product3(adj, m);
    let s = scaled3(identity3::<T>(), det3(m));
    assert(submatrix2(m, 0, 0) == Matrix2x2 { c00: m.c11, c10: m.c21, c01: m.c12, c11: m.c22 });
    assert(submatrix2(m, 0, 1) == Matrix2x2 { c00: m.c10, c10: m.c20, c01: m.c12, c11: m.c22 });
    assert(submatrix2(m, 0, 2) == Matrix2x2 { c00: m.c10, c10: m.c20, c01: m.c11, c11: m.c21 });
    assert(submatrix2(m, 1, 0) == Matrix2x2 { c00: m.c01, c10: m.c21, c01: m.c02, c11: m.c22 });
    assert(submatrix2(m, 1, 1) == Matrix2x2 { c00: m.c00, c10: m.c20, c01: m.c02, c11: m.c22 });
    assert(submatrix2(m, 1, 2) == Matrix2x2 { c00: m.c00, c10: m.c20, c01: m.c01, c11: m.c21 });
    assert(submatrix2(m, 2, 0) == Matrix2x2 { c00: m.c01, c10: m.c11, c01: m.c02, c11: m.c12 });
    assert(submatrix2(m, 2, 1) == Matrix2x2 { c00: m.c00, c10: m.c10, c01: m.c02, c11: m.c12 });
    assert(submatrix2(m, 2, 2) == Matrix2x2 { c00: m.c00, c10: m.c10, c01: m.c01, c11: m.c11 });
    let x00 = h(m.c00);
    let x01 = h(m.c01);
    let x02 = h(m.c02);
    let x10 = h(m.c10);
    let x11 = h(m.c11);
    let x12 = h(m.c12);
    let x20 = h(m.c20);
    let x21 = h(m.c21);
    let x22 = h(m.c22);
    assert(h(c.c00) == (x11 * x22 - x21 * x12));
    assert(h(c.c01) == -(x10 * x22 - x20 * x12));
    assert(h(c.c02) == (x10 * x21 - x20 * x11));
    assert(h(c.c10) == -(x01 * x22 - x21 * x02));
    assert(h(c.c11) == (x00 * x22 - x20 * x02));
    assert(h(c.c12) == -(x00 * x21 - x20 * x01));
    assert(h(c.c20) == (x01 * x12 - x11 * x02));
    assert(h(c.c21) == -(x00 * x12 - x10 * x02));
    assert(h(c.c22) == (x00 * x11 - x10 * x01));
    lemma_adjugate3_integers(x00, x10, x20, x01, x11, x21, x02, x12, x22);
    assert(h(p.c00) == h(c.c00) * x00 + h(c.c01) * x01 + h(c.c02) * x02);
    assert(h(p.c00) == h(s.c00));
    assert(h(p.c01) == h(c.c10) * x00 + h(c.c11) * x01 + h(c.c12) * x02);
    assert(s.c01 == smul(lit::<T>(0), det3(m)));
    assert(h(s.c01) == 0);
    assert(h(c.c10) * x00 + h(c.c11) * x01 + h(c.c12) * x02 == 0);
    assert(h(p.c01) == h(s.c01));
    assert(h(p.c02) == h(c.c20) * x00 + h(c.c21) * x01 + h(c.c22) * x02);
    assert(h(p.c02) == h(s.c02));
    assert(h(p.c10) == h(c.c00) * x10 + h(c.c01) * x11 + h(c.c02) * x12);
    assert(h(p.c10) == h(s.c10));
    assert(h(p.c11) == h(c.c10) * x10 + h(c.c11) * x11 + h(c.c12) * x12);
    assert(h(p.c11) == h(s.c11));
    assert(h(p.c12) == h(c.c20) * x10 + h(c.c21) * x11 + h(c.c22) * x12);
    assert(h(p.c12) == h(s.c12));
    assert(h(p.c20) == h(c.c00) * x20 + h(c.c01) * x21 + h(c.c02) * x22);
    assert(h(p.c20) == h(s.c20));
    assert(h(p.c21) == h(c.c10) * x20 + h(c.c11) * x21 + h(c.c12) * x22);
    assert(h(p.c21) == h(s.c21));
    assert(h(p.c22) == h(c.c20) * x20 + h(c.c21) * x21 + h(c.c22) * x22);
    assert(h(p.c22) == h(s.c22));
}

/// A 4 x 4 matrix with two equal rows, or two equal columns, has determinant
/// zero, over a scalar type that computes as the integers do.
pub proof fn lemma_det4_repeated<T: Scalar>(h: spec_fn(T) -> int, m: Matrix4x4<T>, p: int, q: int)
    requires
        integer_model(h),
        0 <= p < q < 4,
        row4(m, p) == row4(m, q) || column4(m, p) == column4(m, q),
    ensures
        det4(m) == lit::<T>(0),
{
    lemma_det4_expansion(h, m);
    let x00 = h(m.c00);
    let x01 = h(m.c01);
    let x02 = h(m.c02);
    let x03 = h(m.c03);
    let x10 = h(m.c10);
    let x11 = h(m.c11);
    let x12 = h(m.c12);
    let x13 = h(m.c13);
    let x20 = h(m.c20);
    let x21 = h(m.c21);
    let x22 = h(m.c22);
    let x23 = h(m.c23);
    let x30 = h(m.c30);
    let x31 = h(m.c31);
    let x32 = h(m.c32);
    let x33 = h(m.c33);
    lemma_det4_flat(x00, x10, x20, x30, x01, x11, x21, x31, x02, x12, x22, x32, x03, x13, x23, x33);
    if row4(m, 0) == row4(m, 1) {
        lemma_det4_cancel_rows01(x00, x02, x03, x10, x12, x13, x20, x22, x23, x30, x32, x33);
    }
    if column4(m, 0) == column4(m, 1) {
        lemma_det4_cancel_cols01(x00, x01, x02, x03, x20, x21, x22, x23, x30, x31, x32, x33);
    }
    if row4(m, 0) == row4(m, 2) {
        lemma_det4_cancel_rows02(x00, x01, x03, x10, x11, x13, x20, x21, x23, x30, x31, x33);
    }
    if column4(m, 0) == column4(m, 2) {
        lemma_det4_cancel_cols02(x00, x01, x02, x03, x10, x11, x12, x13, x30, x31, x32, x33);
    }
    if row4(m, 0) == row4(m, 3) {
        lemma_det4_cancel_rows03(x00, x01, x02, x10, x11, x12, x20, x21, x22, x30, x31, x32);
    }
    if column4(m, 0) == column4(m, 3) {
        lemma_det4_cancel_cols03(x00, x01, x02, x03, x10, x11, x12, x13, x20, x21, x22, x23);
    }
    if row4(m, 1) == row4(m, 2) {
        lemma_det4_cancel_rows12(x00, x01, x03, x10, x11, x13, x20, x21, x23, x30, x31, x33);
    }
    if column4(m, 1) == column4(m, 2) {
        lemma_det4_cancel_cols12(x00, x01, x02, x03, x10, x11, x12, x13, x30, x31, x32, x33);
    }
    if row4(m, 1) == row4(m, 3) {
        lemma_det4_cancel_rows13(x00, x01, x02, x10, x11, x12, x20, x21, x22, x30, x31, x32);
    }
    if column4(m, 1) == column4(m, 3) {
        lemma_det4_cancel_cols13(x00, x01, x02, x03, x10, x11, x12, x13, x20, x21, x22, x23);
    }
    if row4(m, 2) == row4(m, 3) {
        lemma_det4_cancel_rows23(x00, x01, x02, x10, x11, x12, x20, x21, x22, x30, x31, x32);
    }
    if column4(m, 2) == column4(m, 3) {
        lemma_det4_cancel_cols23(x00, x01, x02, x03, x10, x11, x12, x13, x20, x21, x22, x23);
    }
    assert(h(det4(m)) == h(lit::<T>(0)));
}


/// The adjugate of `m`: its cofactors, transposed.
pub open spec fn adjugate4<T: Scalar>(m: Matrix4x4<T>) -> Matrix4x4<T> {
    transpose4(cofactors4(minors4(m)))
}

/// The adjugate times the matrix is the determinant times the identity, over a
/// scalar type that computes as the integers do. [`Matrix4x4::inverse`] is
/// this adjugate scaled by one over the determinant.
pub proof fn lemma_adjugate4_times_matrix<T: Scalar>(h: spec_fn(T) -> int, m: Matrix4x4<T>)
    requires
        integer_model(h),
    ensures
        product4(adjugate4(m), m) == scaled4(identity4::<T>(), det4(m)),
{
    lemma_det4_expansion(h, m);
    let mi = minors4(m);
    let c = cofactors4(mi);
    let p = product4(adjugate4(m), m);
    let s = scaled4(identity4::<T>(), det4(m));
    let x00 = h(m.c00);
    let x01 = h(m.c01);
    let x02 = h(m.c02);
    let x03 = h(m.c03);
    let x10 = h(m.c10);
    let x11 = h(m.c11);
    let x12 = h(m.c12);
    let x13 = h(m.c13);
    let x20 = h(m.c20);
    let x21 = h(m.c21);
    let x22 = h(m.c22);
    let x23 = h(m.c23);
    let x30 = h(m.c30);
    let x31 = h(m.c31);
    let x32 = h(m.c32);
    let x33 = h(m.c33);
    lemma_det4_flat(x00, x10, x20, x30, x01, x11, x21, x31, x02, x12, x22, x32, x03, x13, x23, x33);
    lemma_adjugate4_integers(x00, x10, x20, x30, x01, x11, x21, x31, x02, x12, x22, x32, x03, x13, x23, x33);
    assert(submatrix3(m, 0, 0) == Matrix3x3 { c00: m.c11, c10: m.c21, c20: m.c31, c01: m.c12, c11: m.c22, c21: m.c32, c02: m.c13, c12: m.c23, c22: m.c33 });
    lemma_det3_expansion(h, submatrix3(m, 0, 0));
    assert(h(c.c00) == (x11 * (x22 * x33 - x32 * x23) - x21 * (x12 * x33 - x32 * x13) + x31 * (x12 * x23 - x22 * x13)));
    assert(submatrix3(m, 0, 1) == Matrix3x3 { c00: m.c10, c10: m.c20, c20: m.c30, c01: m.c12, c11: m.c22, c21: m.c32, c02: m.c13, c12: m.c23, c22: m.c33 });
    lemma_det3_expansion(h, submatrix3(m, 0, 1));
    assert(h(c.c01) == -(x10 * (x22 * x33 - x32 * x23) - x20 * (x12 * x33 - x32 * x13) + x30 * (x12 * x23 - x22 * x13)));
    lemma_negate(x01, x10 * (x22 * x33 - x32 * x23) - x20 * (x12 * x33 - x32 * x13) + x30 * (x12 * x23 - x22 * x13));
    lemma_negate(x11, x10 * (x22 * x33 - x32 * x23) - x20 * (x12 * x33 - x32 * x13) + x30 * (x12 * x23 - x22 * x13));
    lemma_negate(x21, x10 * (x22 * x33 - x32 * x23) - x20 * (x12 * x33 - x32 * x13) + x30 * (x12 * x23 - x22 * x13));
    lemma_negate(x31, x10 * (x22 * x33 - x32 * x23) - x20 * (x12 * x33 - x32 * x13) + x30 * (x12 * x23 - x22 * x13));
    assert(submatrix3(m, 0, 2) == Matrix3x3 { c00: m.c10, c10: m.c20, c20: m.c30, c01: m.c11, c11: m.c21, c21: m.c31, c02: m.c13, c12: m.c23, c22: m.c33 });
    lemma_det3_expansion(h, submatrix3(m, 0, 2));
    assert(h(c.c02) == (x10 * (x21 * x33 - x31 * x23) - x20 * (x11 * x33 - x31 * x13) + x30 * (x11 * x23 - x21 * x13)));
    assert(submatrix3(m, 0, 3) == Matrix3x3 { c00: m.c10, c10: m.c20, c20: m.c30, c01: m.c11, c11: m.c21, c21: m.c31, c02: m.c12, c12: m.c22, c22: m.c32 });
    lemma_det3_expansion(h, submatrix3(m, 0, 3));
    assert(h(c.c03) == -(x10 * (x21 * x32 - x31 * x22) - x20 * (x11 * x32 - x31 * x12) + x30 * (x11 * x22 - x21 * x12)));
    lemma_negate(x03, x10 * (x21 * x32 - x31 * x22) - x20 * (x11 * x32 - x31 * x12) + x30 * (x11 * x22 - x21 * x12));
    lemma_negate(x13, x10 * (x21 * x32 - x31 * x22) - x20 * (x11 * x32 - x31 * x12) + x30 * (x11 * x22 - x21 * x12));
    lemma_negate(x23, x10 * (x21 * x32 - x31 * x22) - x20 * (x11 * x32 - x31 * x12) + x30 * (x11 * x22 - x21 * x12));
    lemma_negate(x33, x10 * (x21 * x32 - x31 * x22) - x20 * (x11 * x32 - x31 * x12) + x30 * (x11 * x22 - x21 * x12));
    assert(submatrix3(m, 1, 0) == Matrix3x3 { c00: m.c01, c10: m.c21, c20: m.c31, c01: m.c02, c11: m.c22, c21: m.c32, c02: m.c03, c12: m.c23, c22: m.c33 });
    lemma_det3_expansion(h, submatrix3(m, 1, 0));
    assert(h(c.c10) == -(x01 * (x22 * x33 - x32 * x23) - x21 * (x02 * x33 - x32 * x03) + x31 * (x02 * x23 - x22 * x03)));
    lemma_negate(x00, x01 * (x22 * x33 - x32 * x23) - x21 * (x02 * x33 - x32 * x03) + x31 * (x02 * x23 - x22 * x03));
    lemma_negate(x10, x01 * (x22 * x33 - x32 * x23) - x21 * (x02 * x33 - x32 * x03) + x31 * (x02 * x23 - x22 * x03));
    lemma_negate(x20, x01 * (x22 * x33 - x32 * x23) - x21 * (x02 * x33 - x32 * x03) + x31 * (x02 * x23 - x22 * x03));
    lemma_negate(x30, x01 * (x22 * x33 - x32 * x23) - x21 * (x02 * x33 - x32 * x03) + x31 * (x02 * x23 - x22 * x03));
    assert(submatrix3(m, 1, 1) == Matrix3x3 { c00: m.c00, c10: m.c20, c20: m.c30, c01: m.c02, c11: m.c22, c21: m.c32, c02: m.c03, c12: m.c23, c22: m.c33 });
    lemma_det3_expansion(h, submatrix3(m, 1, 1));
    assert(h(c.c11) == (x00 * (x22 * x33 - x32 * x23) - x20 * (x02 * x33 - x32 * x03) + x30 * (x02 * x23 - x22 * x03)));
    assert(submatrix3(m, 1, 2) == Matrix3x3 { c00: m.c00, c10: m.c20, c20: m.c30, c01: m.c01, c11: m.c21, c21: m.c31, c02: m.c03, c12: m.c23, c22: m.c33 });
    lemma_det3_expansion(h, submatrix3(m, 1, 2));
    assert(h(c.c12) == -(x00 * (x21 * x33 - x31 * x23) - x20 * (x01 * x33 - x31 * x03) + x30 * (x01 * x23 - x21 * x03)));
    lemma_negate(x02, x00 * (x21 * x33 - x31 * x23) - x20 * (x01 * x33 - x31 * x03) + x30 * (x01 * x23 - x21 * x03));
    lemma_negate(x12, x00 * (x21 * x33 - x31 * x23) - x20 * (x01 * x33 - x31 * x03) + x30 * (x01 * x23 - x21 * x03));
    lemma_negate(x22, x00 * (x21 * x33 - x31 * x23) - x20 * (x01 * x33 - x31 * x03) + x30 * (x01 * x23 - x21 * x03));
    lemma_negate(x32, x00 * (x21 * x33 - x31 * x23) - x20 * (x01 * x33 - x31 * x03) + x30 * (x01 * x23 - x21 * x03));
    assert(submatrix3(m, 1, 3) == Matrix3x3 { c00: m.c00, c10: m.c20, c20: m.c30, c01: m.c01, c11: m.c21, c21: m.c31, c02: m.c02, c12: m.c22, c22: m.c32 });
    lemma_det3_expansion(h, submatrix3(m, 1, 3));
    assert(h(c.c13) == (x00 * (x21 * x32 - x31 * x22) - x20 * (x01 * x32 - x31 * x02) + x30 * (x01 * x22 - x21 * x02)));
    assert(submatrix3(m, 2, 0) == Matrix3x3 { c00: m.c01, c10: m.c11, c20: m.c31, c01: m.c02, c11: m.c12, c21: m.c32, c02: m.c03, c12: m.c13, c22: m.c33 });
    lemma_det3_expansion(h, submatrix3(m, 2, 0));
    assert(h(c.c20) == (x01 * (x12 * x33 - x32 * x13) - x11 * (x02 * x33 - x32 * x03) + x31 * (x02 * x13 - x12 * x03)));
    assert(submatrix3(m, 2, 1) == Matrix3x3 { c00: m.c00, c10: m.c10, c20: m.c30, c01: m.c02, c11: m.c12, c21: m.c32, c02: m.c03, c12: m.c13, c22: m.c33 });
    lemma_det3_expansion(h, submatrix3(m, 2, 1));
    assert(h(c.c21) == -(x00 * (x12 * x33 - x32 * x13) - x10 * (x02 * x33 - x32 * x03) + x30 * (x02 * x13 - x12 * x03)));
    lemma_negate(x01, x00 * (x12 * x33 - x32 * x13) - x10 * (x02 * x33 - x32 * x03) + x30 * (x02 * x13 - x12 * x03));
    lemma_negate(x11, x00 * (x12 * x33 - x32 * x13) - x10 * (x02 * x33 - x32 * x03) + x30 * (x02 * x13 - x12 * x03));
    lemma_negate(x21, x00 * (x12 * x33 - x32 * x13) - x10 * (x02 * x33 - x32 * x03) + x30 * (x02 * x13 - x12 * x03));
    lemma_negate(x31, x00 * (x12 * x33 - x32 * x13) - x10 * (x02 * x33 - x32 * x03) + x30 * (x02 * x13 - x12 * x03));
    assert(submatrix3(m, 2, 2) == Matrix3x3 { c00: m.c00, c10: m.c10, c20: m.c30, c01: m.c01, c11: m.c11, c21: m.c31, c02: m.c03, c12: m.c13, c22: m.c33 });
    lemma_det3_expansion(h, submatrix3(m, 2, 2));
    assert(h(c.c22) == (x00 * (x11 * x33 - x31 * x13) - x10 * (x01 * x33 - x31 * x03) + x30 * (x01 * x13 - x11 * x03)));
    assert(submatrix3(m, 2, 3) == Matrix3x3 { c00: m.c00, c10: m.c10, c20: m.c30, c01: m.c01, c11: m.c11, c21: m.c31, c02: m.c02, c12: m.c12, c22: m.c32 });
    lemma_det3_expansion(h, submatrix3(m, 2, 3));
    assert(h(c.c23) == -(x00 * (x11 * x32 - x31 * x12) - x10 * (x01 * x32 - x31 * x02) + x30 * (x01 * x12 - x11 * x02)));
    lemma_negate(x03, x00 * (x11 * x32 - x31 * x12) - x10 * (x01 * x32 - x31 * x02) + x30 * (x01 * x12 - x11 * x02));
    lemma_negate(x13, x00 * (x11 * x32 - x31 * x12) - x10 * (x01 * x32 - x31 * x02) + x30 * (x01 * x12 - x11 * x02));
    lemma_negate(x23, x00 * (x11 * x32 - x31 * x12) - x10 * (x01 * x32 - x31 * x02) + x30 * (x01 * x12 - x11 * x02));
    lemma_negate(x33, x00 * (x11 * x32 - x31 * x12) - x10 * (x01 * x32 - x31 * x02) + x30 * (x01 * x12 - x11 * x02));
    assert(submatrix3(m, 3, 0) == Matrix3x3 { c00: m.c01, c10: m.c11, c20: m.c21, c01: m.c02, c11: m.c12, c21: m.c22, c02: m.c03, c12: m.c13, c22: m.c23 });
    lemma_det3_expansion(h, submatrix3(m, 3, 0));
    assert(h(c.c30) == -(x01 * (x12 * x23 - x22 * x13) - x11 * (x02 * x23 - x22 * x03) + x21 * (x02 * x13 - x12 * x03)));
    lemma_negate(x00, x01 * (x12 * x23 - x22 * x13) - x11 * (x02 * x23 - x22 * x03) + x21 * (x02 * x13 - x12 * x03));
    lemma_negate(x10, x01 * (x12 * x23 - x22 * x13) - x11 * (x02 * x23 - x22 * x03) + x21 * (x02 * x13 - x12 * x03));
    lemma_negate(x20, x01 * (x12 * x23 - x22 * x13) - x11 * (x02 * x23 - x22 * x03) + x21 * (x02 * x13 - x12 * x03));
    lemma_negate(x30, x01 * (x12 * x23 - x22 * x13) - x11 * (x02 * x23 - x22 * x03) + x21 * (x02 * x13 - x12 * x03));
    assert(submatrix3(m, 3, 1) == Matrix3x3 { c00: m.c00, c10: m.c10, c20: m.c20, c01: m.c02, c11: m.c12, c21: m.c22, c02: m.c03, c12: m.c13, c22: m.c23 });
    lemma_det3_expansion(h, submatrix3(m, 3, 1));
    assert(h(c.c31) == (x00 * (x12 * x23 - x22 * x13) - x10 * (x02 * x23 - x22 * x03) + x20 * (x02 * x13 - x12 * x03)));
    assert(submatrix3(m, 3, 2) == Matrix3x3 { c00: m.c00, c10: m.c10, c20: m.c20, c01: m.c01, c11: m.c11, c21: m.c21, c02: m.c03, c12: m.c13, c22: m.c23 });
    lemma_det3_expansion(h, submatrix3(m, 3, 2));
    assert(h(c.c32) == -(x00 * (x11 * x23 - x21 * x13) - x10 * (x01 * x23 - x21 * x03) + x20 * (x01 * x13 - x11 * x03)));
    lemma_negate(x02, x00 * (x11 * x23 - x21 * x13) - x10 * (x01 * x23 - x21 * x03) + x20 * (x01 * x13 - x11 * x03));
    lemma_negate(x12, x00 * (x11 * x23 - x21 * x13) - x10 * (x01 * x23 - x21 * x03) + x20 * (x01 * x13 - x11 * x03));
    lemma_negate(x22, x00 * (x11 * x23 - x21 * x13) - x10 * (x01 * x23 - x21 * x03) + x20 * (x01 * x13 - x11 * x03));
    lemma_negate(x32, x00 * (x11 * x23 - x21 * x13) - x10 * (x01 * x23 - x21 * x03) + x20 * (x01 * x13 - x11 * x03));
    assert(submatrix3(m, 3, 3) == Matrix3x3 { c00: m.c00, c10: m.c10, c20: m.c20, c01: m.c01, c11: m.c11, c21: m.c21, c02: m.c02, c12: m.c12, c22: m.c22 });
    lemma_det3_expansion(h, submatrix3(m, 3, 3));
    assert(h(c.c33) == (x00 * (x11 * x22 - x21 * x12) - x10 * (x01 * x22 - x21 * x02) + x20 * (x01 * x12 - x11 * x02)));
    assert(h(p.c00) == h(c.c00) * x00 + h(c.c01) * x01 + h(c.c02) * x02 + h(c.c03) * x03);
    lemma_commute(h(c.c00), x00);
    lemma_commute(h(c.c01), x01);
    lemma_commute(h(c.c02), x02);
    lemma_commute(h(c.c03), x03);
    assert(h(s.c00) == h(det4(m)));
    assert(h(p.c00) == h(s.c00));
    assert(h(p.c01) == h(c.c10) * x00 + h(c.c11) * x01 + h(c.c12) * x02 + h(c.c13) * x03);
    lemma_commute(h(c.c10), x00);
    lemma_commute(h(c.c11), x01);
    lemma_commute(h(c.c12), x02);
    lemma_commute(h(c.c13), x03);
    assert(s.c01 == smul(lit::<T>(0), det4(m)));
    assert(h(s.c01) == 0);
    assert(h(p.c01) == h(s.c01));
    assert(h(p.c02) == h(c.c20) * x00 + h(c.c21) * x01 + h(c.c22) * x02 + h(c.c23) * x03);
    lemma_commute(h(c.c20), x00);
    lemma_commute(h(c.c21), x01);
    lemma_commute(h(c.c22), x02);
    lemma_commute(h(c.c23), x03);
    assert(s.c02 == smul(lit::<T>(0), det4(m)));
    assert(h(s.c02) == 0);
    assert(h(p.c02) == h(s.c02));
    assert(h(p.c03) == h(c.c30) * x00 + h(c.c31) * x01 + h(c.c32) * x02 + h(c.c33) * x03);
    lemma_commute(h(c.c30), x00);
    lemma_commute(h(c.c31), x01);
    lemma_commute(h(c.c32), x02);
    lemma_commute(h(c.c33), x03);
    assert(s.c03 == smul(lit::<T>(0), det4(m)));
    assert(h(s.c03) == 0);
    assert(h(p.c03) == h(s.c03));
    assert(h(p.c10) == h(c.c00) * x10 + h(c.c01) * x11 + h(c.c02) * x12 + h(c.c03) * x13);
    lemma_commute(h(c.c00), x10);
    lemma_commute(h(c.c01), x11);
    lemma_commute(h(c.c02), x12);
    lemma_commute(h(c.c03), x13);
    assert(s.c10 == smul(lit::<T>(0), det4(m)));
    assert(h(s.c10) == 0);
    assert(h(p.c10) == h(s.c10));
    assert(h(p.c11) == h(c.c10) * x10 + h(c.c11) * x11 + h(c.c12) * x12 + h(c.c13) * x13);
    lemma_commute(h(c.c10), x10);
    lemma_commute(h(c.c11), x11);
    lemma_commute(h(c.c12), x12);
    lemma_commute(h(c.c13), x13);
    assert(h(s.c11) == h(det4(m)));
    assert(h(p.c11) == h(s.c11));
    assert(h(p.c12) == h(c.c20) * x10 + h(c.c21) * x11 + h(c.c22) * x12 + h(c.c23) * x13);
    lemma_commute(h(c.c20), x10);
    lemma_commute(h(c.c21), x11);
    lemma_commute(h(c.c22), x12);
    lemma_commute(h(c.c23), x13);
    assert(s.c12 == smul(lit::<T>(0), det4(m)));
    assert(h(s.c12) == 0);
    assert(h(p.c12) == h(s.c12));
    assert(h(p.c13) == h(c.c30) * x10 + h(c.c31) * x11 + h(c.c32) * x12 + h(c.c33) * x13);
    lemma_commute(h(c.c30), x10);
    lemma_commute(h(c.c31), x11);
    lemma_commute(h(c.c32), x12);
    lemma_commute(h(c.c33), x13);
    assert(s.c13 == smul(lit::<T>(0), det4(m)));
    assert(h(s.c13) == 0);
    assert(h(p.c13) == h(s.c13));
    assert(h(p.c20) == h(c.c00) * x20 + h(c.c01) * x21 + h(c.c02) * x22 + h(c.c03) * x23);
    lemma_commute(h(c.c00), x20);
    lemma_commute(h(c.c01), x21);
    lemma_commute(h(c.c02), x22);
    lemma_commute(h(c.c03), x23);
    assert(s.c20 == smul(lit::<T>(0), det4(m)));
    assert(h(s.c20) == 0);
    assert(h(p.c20) == h(s.c20));
    assert(h(p.c21) == h(c.c10) * x20 + h(c.c11) * x21 + h(c.c12) * x22 + h(c.c13) * x23);
    lemma_commute(h(c.c10), x20);
    lemma_commute(h(c.c11), x21);
    lemma_commute(h(c.c12), x22);
    lemma_commute(h(c.c13), x23);
    assert(s.c21 == smul(lit::<T>(0), det4(m)));
    assert(h(s.c21) == 0);
    assert(h(p.c21) == h(s.c21));
    assert(h(p.c22) == h(c.c20) * x20 + h(c.c21) * x21 + h(c.c22) * x22 + h(c.c23) * x23);
    lemma_commute(h(c.c20), x20);
    lemma_commute(h(c.c21), x21);
    lemma_commute(h(c.c22), x22);
    lemma_commute(h(c.c23), x23);
    assert(h(s.c22) == h(det4(m)));
    assert(h(p.c22) == h(s.c22));
    assert(h(p.c23) == h(c.c30) * x20 + h(c.c31) * x21 + h(c.c32) * x22 + h(c.c33) * x23);
    lemma_commute(h(c.c30), x20);
    lemma_commute(h(c.c31), x21);
    lemma_commute(h(c.c32), x22);
    lemma_commute(h(c.c33), x23);
    assert(s.c23 == smul(lit::<T>(0), det4(m)));
    assert(h(s.c23) == 0);
    assert(h(p.c23) == h(s.c23));
    assert(h(p.c30) == h(c.c00) * x30 + h(c.c01) * x31 + h(c.c02) * x32 + h(c.c03) * x33);
    lemma_commute(h(c.c00), x30);
    lemma_commute(h(c.c01), x31);
    lemma_commute(h(c.c02), x32);
    lemma_commute(h(c.c03), x33);
    assert(s.c30 == smul(lit::<T>(0), det4(m)));
    assert(h(s.c30) == 0);
    assert(h(p.c30) == h(s.c30));
    assert(h(p.c31) == h(c.c10) * x30 + h(c.c11) * x31 + h(c.c12) * x32 + h(c.c13) * x33);
    lemma_commute(h(c.c10), x30);
    lemma_commute(h(c.c11), x31);
    lemma_commute(h(c.c12), x32);
    lemma_commute(h(c.c13), x33);
    assert(s.c31 == smul(lit::<T>(0), det4(m)));
    assert(h(s.c31) == 0);
    assert(h(p.c31) == h(s.c31));
    assert(h(p.c32) == h(c.c20) * x30 + h(c.c21) * x31 + h(c.c22) * x32 + h(c.c23) * x33);
    lemma_commute(h(c.c20), x30);
    lemma_commute(h(c.c21), x31);
    lemma_commute(h(c.c22), x32);
    lemma_commute(h(c.c23), x33);
    assert(s.c32 == smul(lit::<T>(0), det4(m)));
    assert(h(s.c32) == 0);
    assert(h(p.c32) == h(s.c32));
    assert(h(p.c33) == h(c.c30) * x30 + h(c.c31) * x31 + h(c.c32) * x32 + h(c.c33) * x33);
    lemma_commute(h(c.c30), x30);
    lemma_commute(h(c.c31), x31);
    lemma_commute(h(c.c32), x32);
    lemma_commute(h(c.c33), x33);
    assert(h(s.c33) == h(det4(m)));
    assert(h(p.c33) == h(s.c33));
}

} // verus!
