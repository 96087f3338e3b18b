//! Polynomial identities over the integers, each small enough for the
//! nonlinear arithmetic solver, from which the determinant laws are built.
use vstd::prelude::*;

verus! {

/// The integer 3 x 3 expansion vanishes when the first two rows are equal.
pub proof fn lemma_cancel_rows01(a: int, b: int, c: int, g: int, k: int, l: int)
    ensures
        a * (b * l - c * k) - b * (a * l - c * g) + c * (a * k - b * g) == 0,
{
    assert(a * (b * l - c * k) - b * (a * l - c * g) + c * (a * k - b * g) == 0) by (nonlinear_arith);
}

/// The integer 3 x 3 expansion vanishes when the first and last rows are equal.
pub proof fn lemma_cancel_rows02(a: int, b: int, c: int, d: int, e: int, f: int)
    ensures
        a * (e * c - f * b) - b * (d * c - f * a) + c * (d * b - e * a) == 0,
{
    assert(a * (e * c - f * b) - b * (d * c - f * a) + c * (d * b - e * a) == 0) by (nonlinear_arith);
}

/// The integer 3 x 3 expansion vanishes when the last two rows are equal.
pub proof fn lemma_cancel_rows12(a: int, b: int, c: int, d: int, e: int, f: int)
    ensures
        a * (e * f - f * e) - b * (d * f - f * d) + c * (d * e - e * d) == 0,
{
    assert(a * (e * f - f * e) - b * (d * f - f * d) + c * (d * e - e * d) == 0) by (nonlinear_arith);
}

/// The integer 3 x 3 expansion vanishes when the first two columns are equal.
pub proof fn lemma_cancel_cols01(a: int, c: int, d: int, f: int, g: int, l: int)
    ensures
        a * (d * l - f * g) - a * (d * l - f * g) + c * (d * g - d * g) == 0,
{
    assert(a * (d * l - f * g) - a * (d * l - f * g) + c * (d * g - d * g) == 0) by (nonlinear_arith);
}

/// The integer 3 x 3 expansion vanishes when the first and last columns are equal.
pub proof fn lemma_cancel_cols02(a: int, b: int, d: int, e: int, g: int, k: int)
    ensures
        a * (e * g - d * k) - b * (d * g - d * g) + a * (d * k - e * g) == 0,
{
    assert(a * (e * g - d * k) - b * (d * g - d * g) + a * (d * k - e * g) == 0) by (nonlinear_arith);
}

/// The integer 3 x 3 expansion vanishes when the last two columns are equal.
pub proof fn lemma_cancel_cols12(a: int, b: int, d: int, e: int, g: int, k: int)
    ensures
        a * (e * k - e * k) - b * (d * k - e * g) + b * (d * k - e * g) == 0,
{
    assert(a * (e * k - e * k) - b * (d * k - e * g) + b * (d * k - e * g) == 0) by (nonlinear_arith);
}

/// Expanding along one index with the cofactors of another gives the
/// determinant when the two agree and zero otherwise.
pub proof fn lemma_adjugate3_integers(x00: int, x10: int, x20: int, x01: int, x11: int, x21: int, x02: int, x12: int, x22: int)
    ensures
        (x11 * x22 - x21 * x12) * x00 + -(x10 * x22 - x20 * x12) * x01 + (x10 * x21 - x20 * x11) * x02 == x00 * (x11 * x22 - x21 * x12) - x10 * (x01 * x22 - x21 * x02) + x20 * (x01 * x12 - x11 * x02),
        -(x01 * x22 - x21 * x02) * x00 + (x00 * x22 - x20 * x02) * x01 + -(x00 * x21 - x20 * x01) * x02 == 0,
        (x01 * x12 - x11 * x02) * x00 + -(x00 * x12 - x10 * x02) * x01 + (x00 * x11 - x10 * x01) * x02 == 0,
        (x11 * x22 - x21 * x12) * x10 + -(x10 * x22 - x20 * x12) * x11 + (x10 * x21 - x20 * x11) * x12 == 0,
        -(x01 * x22 - x21 * x02) * x10 + (x00 * x22 - x20 * x02) * x11 + -(x00 * x21 - x20 * x01) * x12 == x00 * (x11 * x22 - x21 * x12) - x10 * (x01 * x22 - x21 * x02) + x20 * (x01 * x12 - x11 * x02),
        (x01 * x12 - x11 * x02) * x10 + -(x00 * x12 - x10 * x02) * x11 + (x00 * x11 - x10 * x01) * x12 == 0,
        (x11 * x22 - x21 * x12) * x20 + -(x10 * x22 - x20 * x12) * x21 + (x10 * x21 - x20 * x11) * x22 == 0,
        -(x01 * x22 - x21 * x02) * x20 + (x00 * x22 - x20 * x02) * x21 + -(x00 * x21 - x20 * x01) * x22 == 0,
        (x01 * x12 - x11 * x02) * x20 + -(x00 * x12 - x10 * x02) * x21 + (x00 * x11 - x10 * x01) * x22 == x00 * (x11 * x22 - x21 * x12) - x10 * (x01 * x22 - x21 * x02) + x20 * (x01 * x12 - x11 * x02),
{
    lemma_distribute(x11, x22, x21, x12, x00);
    lemma_distribute(x11, x22, x21, x12, x10);
    lemma_distribute(x11, x22, x21, x12, x20);
    lemma_distribute(x10, x22, x20, x12, x01);
    lemma_distribute(x10, x22, x20, x12, x11);
    lemma_distribute(x10, x22, x20, x12, x21);
    lemma_distribute(x10, x21, x20, x11, x02);
    lemma_distribute(x10, x21, x20, x11, x12);
    lemma_distribute(x10, x21, x20, x11, x22);
    lemma_distribute(x01, x22, x21, x02, x00);
    lemma_distribute(x01, x22, x21, x02, x10);
    lemma_distribute(x01, x22, x21, x02, x20);
    lemma_distribute(x00, x22, x20, x02, x01);
    lemma_distribute(x00, x22, x20, x02, x11);
    lemma_distribute(x00, x22, x20, x02, x21);
    lemma_distribute(x00, x21, x20, x01, x02);
    lemma_distribute(x00, x21, x20, x01, x12);
    lemma_distribute(x00, x21, x20, x01, x22);
    lemma_distribute(x01, x12, x11, x02, x00);
    lemma_distribute(x01, x12, x11, x02, x10);
    lemma_distribute(x01, x12, x11, x02, x20);
    lemma_distribute(x00, x12, x10, x02, x01);
    lemma_distribute(x00, x12, x10, x02, x11);
    lemma_distribute(x00, x12, x10, x02, x21);
    lemma_distribute(x00, x11, x10, x01, x02);
    lemma_distribute(x00, x11, x10, x01, x12);
    lemma_distribute(x00, x11, x10, x01, x22);
    lemma_distribute(x11, x22, x21, x12, x00);
    lemma_distribute(x01, x22, x21, x02, x10);
    lemma_distribute(x01, x12, x11, x02, x20);
    lemma_reorder(x11, x22, x00);
    lemma_reorder(x21, x12, x00);
    lemma_reorder(x11, x22, x10);
    lemma_reorder(x21, x12, x10);
    lemma_reorder(x11, x22, x20);
    lemma_reorder(x21, x12, x20);
    lemma_reorder(x10, x22, x01);
    lemma_reorder(x20, x12, x01);
    lemma_reorder(x20, x12, x11);
    lemma_reorder(x10, x22, x21);
    lemma_reorder(x10, x21, x02);
    lemma_reorder(x20, x11, x02);
    lemma_reorder(x01, x22, x00);
    lemma_reorder(x21, x02, x00);
    lemma_reorder(x01, x22, x20);
    lemma_reorder(x21, x02, x20);
    lemma_reorder(x20, x02, x01);
    lemma_reorder(x00, x22, x21);
    lemma_reorder(x01, x12, x00);
    lemma_reorder(x11, x02, x00);
    lemma_reorder(x01, x12, x10);
    lemma_reorder(x11, x02, x10);
    lemma_reorder(x10, x02, x01);
    lemma_reorder(x00, x12, x11);
}

/// A product of three integers in any order of its factors.
pub proof fn lemma_reorder(a: int, b: int, c: int)
    ensures
        a * b * c == a * c * b,
        a * b * c == b * a * c,
        a * b * c == b * c * a,
        a * b * c == c * a * b,
        a * b * c == c * b * a,
{
    assert(a * b * c == a * c * b) by (nonlinear_arith);
    assert(a * b * c == b * a * c) by (nonlinear_arith);
    assert(a * b * c == b * c * a) by (nonlinear_arith);
    assert(a * b * c == c * a * b) by (nonlinear_arith);
    assert(a * b * c == c * b * a) by (nonlinear_arith);
}

/// `(p q - r s) t == p q t - r s t`, with `t` on either side, and negated.
pub proof fn lemma_distribute(p: int, q: int, r: int, s: int, t: int)
    ensures
        (p * q - r * s) * t == p * q * t - r * s * t,
        t * (p * q - r * s) == p * q * t - r * s * t,
        (-(p * q - r * s)) * t == r * s * t - p * q * t,
{
    assert((-(p * q - r * s)) * t == r * s * t - p * q * t) by (nonlinear_arith);
    assert((p * q - r * s) * t == p * q * t - r * s * t) by (nonlinear_arith);
    assert(t * (p * q - r * s) == p * q * t - r * s * t) by (nonlinear_arith);
}

/// The 4 x 4 integer expansion, multiplied out into its 24 products.
pub proof fn lemma_det4_flat(x00: int, x10: int, x20: int, x30: int, x01: int, x11: int, x21: int, x31: int, x02: int, x12: int, x22: int, x32: int, x03: int, x13: int, x23: int, x33: int)
    ensures
        x00 * (x11 * (x22 * x33 - x32 * x23) - x21 * (x12 * x33 - x32 * x13) + x31 * (x12 * x23 - x22 * x13)) - x10 * (x01 * (x22 * x33 - x32 * x23) - x21 * (x02 * x33 - x32 * x03) + x31 * (x02 * x23 - x22 * x03)) + x20 * (x01 * (x12 * x33 - x32 * x13) - x11 * (x02 * x33 - x32 * x03) + x31 * (x02 * x13 - x12 * x03)) - x30 * (x01 * (x12 * x23 - x22 * x13) - x11 * (x02 * x23 - x22 * x03) + x21 * (x02 * x13 - x12 * x03)) == x00 * x11 * x22 * x33 - x00 * x11 * x23 * x32 - x00 * x12 * x21 * x33 + x00 * x13 * x21 * x32 + x00 * x12 * x23 * x31 - x00 * x13 * x22 * x31 - x01 * x10 * x22 * x33 + x01 * x10 * x23 * x32 + x02 * x10 * x21 * x33 - x03 * x10 * x21 * x32 - x02 * x10 * x23 * x31 + x03 * x10 * x22 * x31 + x01 * x12 * x20 * x33 - x01 * x13 * x20 * x32 - x02 * x11 * x20 * x33 + x03 * x11 * x20 * x32 + x02 * x13 * x20 * x31 - x03 * x12 * x20 * x31 - x01 * x12 * x23 * x30 + x01 * x13 * x22 * x30 + x02 * x11 * x23 * x30 - x03 * x11 * x22 * x30 - x02 * x13 * x21 * x30 + x03 * x12 * x21 * x30,
{
    lemma_expand3(x11, x21, x31, x12, x22, x32, x13, x23, x33);
    lemma_scale6(x00, x11 * x22 * x33, x11 * x32 * x23, x21 * x12 * x33, x21 * x32 * x13, x31 * x12 * x23, x31 * x22 * x13);
    lemma_reorder4(x00, x11, x22, x33);
    lemma_reorder4(x00, x11, x32, x23);
    lemma_reorder4(x00, x21, x12, x33);
    lemma_reorder4(x00, x21, x32, x13);
    lemma_reorder4(x00, x31, x12, x23);
    lemma_reorder4(x00, x31, x22, x13);
    lemma_expand3(x01, x21, x31, x02, x22, x32, x03, x23, x33);
    lemma_scale6(x10, x01 * x22 * x33, x01 * x32 * x23, x21 * x02 * x33, x21 * x32 * x03, x31 * x02 * x23, x31 * x22 * x03);
    lemma_reorder4(x10, x01, x22, x33);
    lemma_reorder4(x10, x01, x32, x23);
    lemma_reorder4(x10, x21, x02, x33);
    lemma_reorder4(x10, x21, x32, x03);
    lemma_reorder4(x10, x31, x02, x23);
    lemma_reorder4(x10, x31, x22, x03);
    lemma_expand3(x01, x11, x31, x02, x12, x32, x03, x13, x33);
    lemma_scale6(x20, x01 * x12 * x33, x01 * x32 * x13, x11 * x02 * x33, x11 * x32 * x03, x31 * x02 * x13, x31 * x12 * x03);
    lemma_reorder4(x20, x01, x12, x33);
    lemma_reorder4(x20, x01, x32, x13);
    lemma_reorder4(x20, x11, x02, x33);
    lemma_reorder4(x20, x11, x32, x03);
    lemma_reorder4(x20, x31, x02, x13);
    lemma_reorder4(x20, x31, x12, x03);
    lemma_expand3(x01, x11, x21, x02, x12, x22, x03, x13, x23);
    lemma_scale6(x30, x01 * x12 * x23, x01 * x22 * x13, x11 * x02 * x23, x11 * x22 * x03, x21 * x02 * x13, x21 * x12 * x03);
    lemma_reorder4(x30, x01, x12, x23);
    lemma_reorder4(x30, x01, x22, x13);
    lemma_reorder4(x30, x11, x02, x23);
    lemma_reorder4(x30, x11, x22, x03);
    lemma_reorder4(x30, x21, x02, x13);
    lemma_reorder4(x30, x21, x12, x03);
}

/// The 3 x 3 integer expansion, multiplied out into its six products.
pub proof fn lemma_expand3(a: int, b: int, c: int, d: int, e: int, f: int, g: int, k: int, l: int)
    ensures
        a * (e * l - f * k) - b * (d * l - f * g) + c * (d * k - e * g)
            == a * e * l - a * f * k - b * d * l + b * f * g + c * d * k - c * e * g,
{
    assert(a * (e * l - f * k) == a * e * l - a * f * k) by (nonlinear_arith);
    assert(b * (d * l - f * g) == b * d * l - b * f * g) by (nonlinear_arith);
    assert(c * (d * k - e * g) == c * d * k - c * e * g) by (nonlinear_arith);
}

/// `t` times a signed sum of six terms, term by term.
pub proof fn lemma_scale6(t: int, p: int, q: int, r: int, s: int, u: int, v: int)
    ensures
        t * (p - q - r + s + u - v) == t * p - t * q - t * r + t * s + t * u - t * v,
{
    assert(t * (p - q - r + s + u - v) == t * p - t * q - t * r + t * s + t * u - t * v) by (nonlinear_arith);
}

/// A product of four integers, grouped as `a (b c d)`, in any order of its factors.
pub proof fn lemma_reorder4(a: int, b: int, c: int, d: int)
    ensures
        a * (b * c * d) == a * b * c * d,
        a * (b * c * d) == a * b * d * c,
        a * (b * c * d) == a * c * b * d,
        a * (b * c * d) == a * c * d * b,
        a * (b * c * d) == a * d * b * c,
        a * (b * c * d) == a * d * c * b,
        a * (b * c * d) == b * a * c * d,
        a * (b * c * d) == b * a * d * c,
        a * (b * c * d) == b * c * a * d,
        a * (b * c * d) == b * c * d * a,
        a * (b * c * d) == b * d * a * c,
        a * (b * c * d) == b * d * c * a,
        a * (b * c * d) == c * a * b * d,
        a * (b * c * d) == c * a * d * b,
        a * (b * c * d) == c * b * a * d,
        a * (b * c * d) == c * b * d * a,
        a * (b * c * d) == c * d * a * b,
        a * (b * c * d) == c * d * b * a,
        a * (b * c * d) == d * a * b * c,
        a * (b * c * d) == d * a * c * b,
        a * (b * c * d) == d * b * a * c,
        a * (b * c * d) == d * b * c * a,
        a * (b * c * d) == d * c * a * b,
        a * (b * c * d) == d * c * b * a,
{
    assert(a * (b * c * d) == a * b * c * d) by (nonlinear_arith);
    assert(a * (b * c * d) == a * b * d * c) by (nonlinear_arith);
    assert(a * (b * c * d) == a * c * b * d) by (nonlinear_arith);
    assert(a * (b * c * d) == a * c * d * b) by (nonlinear_arith);
    assert(a * (b * c * d) == a * d * b * c) by (nonlinear_arith);
    assert(a * (b * c * d) == a * d * c * b) by (nonlinear_arith);
    assert(a * (b * c * d) == b * a * c * d) by (nonlinear_arith);
    assert(a * (b * c * d) == b * a * d * c) by (nonlinear_arith);
    assert(a * (b * c * d) == b * c * a * d) by (nonlinear_arith);
    assert(a * (b * c * d) == b * c * d * a) by (nonlinear_arith);
    assert(a * (b * c * d) == b * d * a * c) by (nonlinear_arith);
    assert(a * (b * c * d) == b * d * c * a) by (nonlinear_arith);
    assert(a * (b * c * d) == c * a * b * d) by (nonlinear_arith);
    assert(a * (b * c * d) == c * a * d * b) by (nonlinear_arith);
    assert(a * (b * c * d) == c * b * a * d) by (nonlinear_arith);
    assert(a * (b * c * d) == c * b * d * a) by (nonlinear_arith);
    assert(a * (b * c * d) == c * d * a * b) by (nonlinear_arith);
    assert(a * (b * c * d) == c * d * b * a) by (nonlinear_arith);
    assert(a * (b * c * d) == d * a * b * c) by (nonlinear_arith);
    assert(a * (b * c * d) == d * a * c * b) by (nonlinear_arith);
    assert(a * (b * c * d) == d * b * a * c) by (nonlinear_arith);
    assert(a * (b * c * d) == d * b * c * a) by (nonlinear_arith);
    assert(a * (b * c * d) == d * c * a * b) by (nonlinear_arith);
    assert(a * (b * c * d) == d * c * b * a) by (nonlinear_arith);
}

/// The 24 products cancel in pairs when two rows agree.
pub proof fn lemma_det4_cancel_rows01(x00: int, x02: int, x03: int, x10: int, x12: int, x13: int, x20: int, x22: int, x23: int, x30: int, x32: int, x33: int)
    ensures
        x00 * x10 * x22 * x33 - x00 * x10 * x23 * x32 - x00 * x12 * x20 * x33 + x00 * x13 * x20 * x32 + x00 * x12 * x23 * x30 - x00 * x13 * x22 * x30 - x00 * x10 * x22 * x33 + x00 * x10 * x23 * x32 + x02 * x10 * x20 * x33 - x03 * x10 * x20 * x32 - x02 * x10 * x23 * x30 + x03 * x10 * x22 * x30 + x00 * x12 * x20 * x33 - x00 * x13 * x20 * x32 - x02 * x10 * x20 * x33 + x03 * x10 * x20 * x32 + x02 * x13 * x20 * x30 - x03 * x12 * x20 * x30 - x00 * x12 * x23 * x30 + x00 * x13 * x22 * x30 + x02 * x10 * x23 * x30 - x03 * x10 * x22 * x30 - x02 * x13 * x20 * x30 + x03 * x12 * x20 * x30 == 0,
{
    lemma_reorder4(x00, x10, x22, x33);
    assert(x00 * (x10 * x22 * x33) == x00 * x10 * x22 * x33);
    lemma_reorder4(x00, x10, x23, x32);
    assert(x00 * (x10 * x23 * x32) == x00 * x10 * x23 * x32);
    lemma_reorder4(x00, x12, x20, x33);
    assert(x00 * (x12 * x20 * x33) == x00 * x12 * x20 * x33);
    lemma_reorder4(x00, x13, x20, x32);
    assert(x00 * (x13 * x20 * x32) == x00 * x13 * x20 * x32);
    lemma_reorder4(x00, x12, x23, x30);
    assert(x00 * (x12 * x23 * x30) == x00 * x12 * x23 * x30);
    lemma_reorder4(x00, x13, x22, x30);
    assert(x00 * (x13 * x22 * x30) == x00 * x13 * x22 * x30);
    lemma_reorder4(x02, x10, x20, x33);
    assert(x02 * (x10 * x20 * x33) == x02 * x10 * x20 * x33);
    lemma_reorder4(x03, x10, x20, x32);
    assert(x03 * (x10 * x20 * x32) == x03 * x10 * x20 * x32);
    lemma_reorder4(x02, x10, x23, x30);
    assert(x02 * (x10 * x23 * x30) == x02 * x10 * x23 * x30);
    lemma_reorder4(x03, x10, x22, x30);
    assert(x03 * (x10 * x22 * x30) == x03 * x10 * x22 * x30);
    lemma_reorder4(x02, x13, x20, x30);
    assert(x02 * (x13 * x20 * x30) == x02 * x13 * x20 * x30);
    lemma_reorder4(x03, x12, x20, x30);
    assert(x03 * (x12 * x20 * x30) == x03 * x12 * x20 * x30);
}

/// The 24 products cancel in pairs when two columns agree.
pub proof fn lemma_det4_cancel_cols01(x00: int, x01: int, x02: int, x03: int, x20: int, x21: int, x22: int, x23: int, x30: int, x31: int, x32: int, x33: int)
    ensures
        x00 * x01 * x22 * x33 - x00 * x01 * x23 * x32 - x00 * x02 * x21 * x33 + x00 * x03 * x21 * x32 + x00 * x02 * x23 * x31 - x00 * x03 * x22 * x31 - x01 * x00 * x22 * x33 + x01 * x00 * x23 * x32 + x02 * x00 * x21 * x33 - x03 * x00 * x21 * x32 - x02 * x00 * x23 * x31 + x03 * x00 * x22 * x31 + x01 * x02 * x20 * x33 - x01 * x03 * x20 * x32 - x02 * x01 * x20 * x33 + x03 * x01 * x20 * x32 + x02 * x03 * x20 * x31 - x03 * x02 * x20 * x31 - x01 * x02 * x23 * x30 + x01 * x03 * x22 * x30 + x02 * x01 * x23 * x30 - x03 * x01 * x22 * x30 - x02 * x03 * x21 * x30 + x03 * x02 * x21 * x30 == 0,
{
    lemma_reorder4(x00, x01, x22, x33);
    assert(x00 * (x01 * x22 * x33) == x00 * x01 * x22 * x33);
    lemma_reorder4(x00, x01, x23, x32);
    assert(x00 * (x01 * x23 * x32) == x00 * x01 * x23 * x32);
    lemma_reorder4(x00, x02, x21, x33);
    assert(x00 * (x02 * x21 * x33) == x00 * x02 * x21 * x33);
    lemma_reorder4(x00, x03, x21, x32);
    assert(x00 * (x03 * x21 * x32) == x00 * x03 * x21 * x32);
    lemma_reorder4(x00, x02, x23, x31);
    assert(x00 * (x02 * x23 * x31) == x00 * x02 * x23 * x31);
    lemma_reorder4(x00, x03, x22, x31);
    assert(x00 * (x03 * x22 * x31) == x00 * x03 * x22 * x31);
    lemma_reorder4(x01, x02, x20, x33);
    assert(x01 * (x02 * x20 * x33) == x01 * x02 * x20 * x33);
    lemma_reorder4(x01, x03, x20, x32);
    assert(x01 * (x03 * x20 * x32) == x01 * x03 * x20 * x32);
    lemma_reorder4(x02, x03, x20, x31);
    assert(x02 * (x03 * x20 * x31) == x02 * x03 * x20 * x31);
    lemma_reorder4(x01, x02, x23, x30);
    assert(x01 * (x02 * x23 * x30) == x01 * x02 * x23 * x30);
    lemma_reorder4(x01, x03, x22, x30);
    assert(x01 * (x03 * x22 * x30) == x01 * x03 * x22 * x30);
    lemma_reorder4(x02, x03, x21, x30);
    assert(x02 * (x03 * x21 * x30) == x02 * x03 * x21 * x30);
}

/// The 24 products cancel in pairs when two rows agree.
pub proof fn lemma_det4_cancel_rows02(x00: int, x01: int, x03: int, x10: int, x11: int, x13: int, x20: int, x21: int, x23: int, x30: int, x31: int, x33: int)
    ensures
        x00 * x11 * x20 * x33 - x00 * x11 * x23 * x30 - x00 * x10 * x21 * x33 + x00 * x13 * x21 * x30 + x00 * x10 * x23 * x31 - x00 * x13 * x20 * x31 - x01 * x10 * x20 * x33 + x01 * x10 * x23 * x30 + x00 * x10 * x21 * x33 - x03 * x10 * x21 * x30 - x00 * x10 * x23 * x31 + x03 * x10 * x20 * x31 + x01 * x10 * x20 * x33 - x01 * x13 * x20 * x30 - x00 * x11 * x20 * x33 + x03 * x11 * x20 * x30 + x00 * x13 * x20 * x31 - x03 * x10 * x20 * x31 - x01 * x10 * x23 * x30 + x01 * x13 * x20 * x30 + x00 * x11 * x23 * x30 - x03 * x11 * x20 * x30 - x00 * x13 * x21 * x30 + x03 * x10 * x21 * x30 == 0,
{
    lemma_reorder4(x00, x11, x20, x33);
    assert(x00 * (x11 * x20 * x33) == x00 * x11 * x20 * x33);
    lemma_reorder4(x00, x11, x23, x30);
    assert(x00 * (x11 * x23 * x30) == x00 * x11 * x23 * x30);
    lemma_reorder4(x00, x10, x21, x33);
    assert(x00 * (x10 * x21 * x33) == x00 * x10 * x21 * x33);
    lemma_reorder4(x00, x13, x21, x30);
    assert(x00 * (x13 * x21 * x30) == x00 * x13 * x21 * x30);
    lemma_reorder4(x00, x10, x23, x31);
    assert(x00 * (x10 * x23 * x31) == x00 * x10 * x23 * x31);
    lemma_reorder4(x00, x13, x20, x31);
    assert(x00 * (x13 * x20 * x31) == x00 * x13 * x20 * x31);
    lemma_reorder4(x01, x10, x20, x33);
    assert(x01 * (x10 * x20 * x33) == x01 * x10 * x20 * x33);
    lemma_reorder4(x01, x10, x23, x30);
    assert(x01 * (x10 * x23 * x30) == x01 * x10 * x23 * x30);
    lemma_reorder4(x03, x10, x21, x30);
    assert(x03 * (x10 * x21 * x30) == x03 * x10 * x21 * x30);
    lemma_reorder4(x03, x10, x20, x31);
    assert(x03 * (x10 * x20 * x31) == x03 * x10 * x20 * x31);
    lemma_reorder4(x01, x13, x20, x30);
    assert(x01 * (x13 * x20 * x30) == x01 * x13 * x20 * x30);
    lemma_reorder4(x03, x11, x20, x30);
    assert(x03 * (x11 * x20 * x30) == x03 * x11 * x20 * x30);
}

/// The 24 products cancel in pairs when two columns agree.
pub proof fn lemma_det4_cancel_cols02(x00: int, x01: int, x02: int, x03: int, x10: int, x11: int, x12: int, x13: int, x30: int, x31: int, x32: int, x33: int)
    ensures
        x00 * x11 * x02 * x33 - x00 * x11 * x03 * x32 - x00 * x12 * x01 * x33 + x00 * x13 * x01 * x32 + x00 * x12 * x03 * x31 - x00 * x13 * x02 * x31 - x01 * x10 * x02 * x33 + x01 * x10 * x03 * x32 + x02 * x10 * x01 * x33 - x03 * x10 * x01 * x32 - x02 * x10 * x03 * x31 + x03 * x10 * x02 * x31 + x01 * x12 * x00 * x33 - x01 * x13 * x00 * x32 - x02 * x11 * x00 * x33 + x03 * x11 * x00 * x32 + x02 * x13 * x00 * x31 - x03 * x12 * x00 * x31 - x01 * x12 * x03 * x30 + x01 * x13 * x02 * x30 + x02 * x11 * x03 * x30 - x03 * x11 * x02 * x30 - x02 * x13 * x01 * x30 + x03 * x12 * x01 * x30 == 0,
{
    lemma_reorder4(x00, x11, x02, x33);
    assert(x00 * (x11 * x02 * x33) == x00 * x11 * x02 * x33);
    lemma_reorder4(x00, x11, x03, x32);
    assert(x00 * (x11 * x03 * x32) == x00 * x11 * x03 * x32);
    lemma_reorder4(x00, x12, x01, x33);
    assert(x00 * (x12 * x01 * x33) == x00 * x12 * x01 * x33);
    lemma_reorder4(x00, x13, x01, x32);
    assert(x00 * (x13 * x01 * x32) == x00 * x13 * x01 * x32);
    lemma_reorder4(x00, x12, x03, x31);
    assert(x00 * (x12 * x03 * x31) == x00 * x12 * x03 * x31);
    lemma_reorder4(x00, x13, x02, x31);
    assert(x00 * (x13 * x02 * x31) == x00 * x13 * x02 * x31);
    lemma_reorder4(x01, x10, x02, x33);
    assert(x01 * (x10 * x02 * x33) == x01 * x10 * x02 * x33);
    lemma_reorder4(x01, x10, x03, x32);
    assert(x01 * (x10 * x03 * x32) == x01 * x10 * x03 * x32);
    lemma_reorder4(x02, x10, x03, x31);
    assert(x02 * (x10 * x03 * x31) == x02 * x10 * x03 * x31);
    lemma_reorder4(x01, x12, x03, x30);
    assert(x01 * (x12 * x03 * x30) == x01 * x12 * x03 * x30);
    lemma_reorder4(x01, x13, x02, x30);
    assert(x01 * (x13 * x02 * x30) == x01 * x13 * x02 * x30);
    lemma_reorder4(x02, x11, x03, x30);
    assert(x02 * (x11 * x03 * x30) == x02 * x11 * x03 * x30);
}

/// The 24 products cancel in pairs when two rows agree.
pub proof fn lemma_det4_cancel_rows03(x00: int, x01: int, x02: int, x10: int, x11: int, x12: int, x20: int, x21: int, x22: int, x30: int, x31: int, x32: int)
    ensures
        x00 * x11 * x22 * x30 - x00 * x11 * x20 * x32 - x00 * x12 * x21 * x30 + x00 * x10 * x21 * x32 + x00 * x12 * x20 * x31 - x00 * x10 * x22 * x31 - x01 * x10 * x22 * x30 + x01 * x10 * x20 * x32 + x02 * x10 * x21 * x30 - x00 * x10 * x21 * x32 - x02 * x10 * x20 * x31 + x00 * x10 * x22 * x31 + x01 * x12 * x20 * x30 - x01 * x10 * x20 * x32 - x02 * x11 * x20 * x30 + x00 * x11 * x20 * x32 + x02 * x10 * x20 * x31 - x00 * x12 * x20 * x31 - x01 * x12 * x20 * x30 + x01 * x10 * x22 * x30 + x02 * x11 * x20 * x30 - x00 * x11 * x22 * x30 - x02 * x10 * x21 * x30 + x00 * x12 * x21 * x30 == 0,
{
    lemma_reorder4(x00, x11, x22, x30);
    assert(x00 * (x11 * x22 * x30) == x00 * x11 * x22 * x30);
    lemma_reorder4(x00, x11, x20, x32);
    assert(x00 * (x11 * x20 * x32) == x00 * x11 * x20 * x32);
    lemma_reorder4(x00, x12, x21, x30);
    assert(x00 * (x12 * x21 * x30) == x00 * x12 * x21 * x30);
    lemma_reorder4(x00, x10, x21, x32);
    assert(x00 * (x10 * x21 * x32) == x00 * x10 * x21 * x32);
    lemma_reorder4(x00, x12, x20, x31);
    assert(x00 * (x12 * x20 * x31) == x00 * x12 * x20 * x31);
    lemma_reorder4(x00, x10, x22, x31);
    assert(x00 * (x10 * x22 * x31) == x00 * x10 * x22 * x31);
    lemma_reorder4(x01, x10, x22, x30);
    assert(x01 * (x10 * x22 * x30) == x01 * x10 * x22 * x30);
    lemma_reorder4(x01, x10, x20, x32);
    assert(x01 * (x10 * x20 * x32) == x01 * x10 * x20 * x32);
    lemma_reorder4(x02, x10, x21, x30);
    assert(x02 * (x10 * x21 * x30) == x02 * x10 * x21 * x30);
    lemma_reorder4(x02, x10, x20, x31);
    assert(x02 * (x10 * x20 * x31) == x02 * x10 * x20 * x31);
    lemma_reorder4(x01, x12, x20, x30);
    assert(x01 * (x12 * x20 * x30) == x01 * x12 * x20 * x30);
    lemma_reorder4(x02, x11, x20, x30);
    assert(x02 * (x11 * x20 * x30) == x02 * x11 * x20 * x30);
}

/// The 24 products cancel in pairs when two columns agree.
pub proof fn lemma_det4_cancel_cols03(x00: int, x01: int, x02: int, x03: int, x10: int, x11: int, x12: int, x13: int, x20: int, x21: int, x22: int, x23: int)
    ensures
        x00 * x11 * x22 * x03 - x00 * x11 * x23 * x02 - x00 * x12 * x21 * x03 + x00 * x13 * x21 * x02 + x00 * x12 * x23 * x01 - x00 * x13 * x22 * x01 - x01 * x10 * x22 * x03 + x01 * x10 * x23 * x02 + x02 * x10 * x21 * x03 - x03 * x10 * x21 * x02 - x02 * x10 * x23 * x01 + x03 * x10 * x22 * x01 + x01 * x12 * x20 * x03 - x01 * x13 * x20 * x02 - x02 * x11 * x20 * x03 + x03 * x11 * x20 * x02 + x02 * x13 * x20 * x01 - x03 * x12 * x20 * x01 - x01 * x12 * x23 * x00 + x01 * x13 * x22 * x00 + x02 * x11 * x23 * x00 - x03 * x11 * x22 * x00 - x02 * x13 * x21 * x00 + x03 * x12 * x21 * x00 == 0,
{
    lemma_reorder4(x00, x11, x22, x03);
    assert(x00 * (x11 * x22 * x03) == x00 * x11 * x22 * x03);
    lemma_reorder4(x00, x11, x23, x02);
    assert(x00 * (x11 * x23 * x02) == x00 * x11 * x23 * x02);
    lemma_reorder4(x00, x12, x21, x03);
    assert(x00 * (x12 * x21 * x03) == x00 * x12 * x21 * x03);
    lemma_reorder4(x00, x13, x21, x02);
    assert(x00 * (x13 * x21 * x02) == x00 * x13 * x21 * x02);
    lemma_reorder4(x00, x12, x23, x01);
    assert(x00 * (x12 * x23 * x01) == x00 * x12 * x23 * x01);
    lemma_reorder4(x00, x13, x22, x01);
    assert(x00 * (x13 * x22 * x01) == x00 * x13 * x22 * x01);
    lemma_reorder4(x01, x10, x22, x03);
    assert(x01 * (x10 * x22 * x03) == x01 * x10 * x22 * x03);
    lemma_reorder4(x01, x10, x23, x02);
    assert(x01 * (x10 * x23 * x02) == x01 * x10 * x23 * x02);
    lemma_reorder4(x02, x10, x21, x03);
    assert(x02 * (x10 * x21 * x03) == x02 * x10 * x21 * x03);
    lemma_reorder4(x01, x12, x20, x03);
    assert(x01 * (x12 * x20 * x03) == x01 * x12 * x20 * x03);
    lemma_reorder4(x01, x13, x20, x02);
    assert(x01 * (x13 * x20 * x02) == x01 * x13 * x20 * x02);
    lemma_reorder4(x02, x11, x20, x03);
    assert(x02 * (x11 * x20 * x03) == x02 * x11 * x20 * x03);
}

/// The 24 products cancel in pairs when two rows agree.
pub proof fn lemma_det4_cancel_rows12(x00: int, x01: int, x03: int, x10: int, x11: int, x13: int, x20: int, x21: int, x23: int, x30: int, x31: int, x33: int)
    ensures
        x00 * x11 * x21 * x33 - x00 * x11 * x23 * x31 - x00 * x11 * x21 * x33 + x00 * x13 * x21 * x31 + x00 * x11 * x23 * x31 - x00 * x13 * x21 * x31 - x01 * x10 * x21 * x33 + x01 * x10 * x23 * x31 + x01 * x10 * x21 * x33 - x03 * x10 * x21 * x31 - x01 * x10 * x23 * x31 + x03 * x10 * x21 * x31 + x01 * x11 * x20 * x33 - x01 * x13 * x20 * x31 - x01 * x11 * x20 * x33 + x03 * x11 * x20 * x31 + x01 * x13 * x20 * x31 - x03 * x11 * x20 * x31 - x01 * x11 * x23 * x30 + x01 * x13 * x21 * x30 + x01 * x11 * x23 * x30 - x03 * x11 * x21 * x30 - x01 * x13 * x21 * x30 + x03 * x11 * x21 * x30 == 0,
{
    lemma_reorder4(x00, x11, x21, x33);
    assert(x00 * (x11 * x21 * x33) == x00 * x11 * x21 * x33);
    lemma_reorder4(x00, x11, x23, x31);
    assert(x00 * (x11 * x23 * x31) == x00 * x11 * x23 * x31);
    lemma_reorder4(x00, x13, x21, x31);
    assert(x00 * (x13 * x21 * x31) == x00 * x13 * x21 * x31);
    lemma_reorder4(x01, x10, x21, x33);
    assert(x01 * (x10 * x21 * x33) == x01 * x10 * x21 * x33);
    lemma_reorder4(x01, x10, x23, x31);
    assert(x01 * (x10 * x23 * x31) == x01 * x10 * x23 * x31);
    lemma_reorder4(x03, x10, x21, x31);
    assert(x03 * (x10 * x21 * x31) == x03 * x10 * x21 * x31);
    lemma_reorder4(x01, x11, x20, x33);
    assert(x01 * (x11 * x20 * x33) == x01 * x11 * x20 * x33);
    lemma_reorder4(x01, x13, x20, x31);
    assert(x01 * (x13 * x20 * x31) == x01 * x13 * x20 * x31);
    lemma_reorder4(x03, x11, x20, x31);
    assert(x03 * (x11 * x20 * x31) == x03 * x11 * x20 * x31);
    lemma_reorder4(x01, x11, x23, x30);
    assert(x01 * (x11 * x23 * x30) == x01 * x11 * x23 * x30);
    lemma_reorder4(x01, x13, x21, x30);
    assert(x01 * (x13 * x21 * x30) == x01 * x13 * x21 * x30);
    lemma_reorder4(x03, x11, x21, x30);
    assert(x03 * (x11 * x21 * x30) == x03 * x11 * x21 * x30);
}

/// The 24 products cancel in pairs when two columns agree.
pub proof fn lemma_det4_cancel_cols12(x00: int, x01: int, x02: int, x03: int, x10: int, x11: int, x12: int, x13: int, x30: int, x31: int, x32: int, x33: int)
    ensures
        x00 * x11 * x12 * x33 - x00 * x11 * x13 * x32 - x00 * x12 * x11 * x33 + x00 * x13 * x11 * x32 + x00 * x12 * x13 * x31 - x00 * x13 * x12 * x31 - x01 * x10 * x12 * x33 + x01 * x10 * x13 * x32 + x02 * x10 * x11 * x33 - x03 * x10 * x11 * x32 - x02 * x10 * x13 * x31 + x03 * x10 * x12 * x31 + x01 * x12 * x10 * x33 - x01 * x13 * x10 * x32 - x02 * x11 * x10 * x33 + x03 * x11 * x10 * x32 + x02 * x13 * x10 * x31 - x03 * x12 * x10 * x31 - x01 * x12 * x13 * x30 + x01 * x13 * x12 * x30 + x02 * x11 * x13 * x30 - x03 * x11 * x12 * x30 - x02 * x13 * x11 * x30 + x03 * x12 * x11 * x30 == 0,
{
    lemma_reorder4(x00, x11, x12, x33);
    assert(x00 * (x11 * x12 * x33) == x00 * x11 * x12 * x33);
    lemma_reorder4(x00, x11, x13, x32);
    assert(x00 * (x11 * x13 * x32) == x00 * x11 * x13 * x32);
    lemma_reorder4(x00, x12, x13, x31);
    assert(x00 * (x12 * x13 * x31) == x00 * x12 * x13 * x31);
    lemma_reorder4(x01, x10, x12, x33);
    assert(x01 * (x10 * x12 * x33) == x01 * x10 * x12 * x33);
    lemma_reorder4(x01, x10, x13, x32);
    assert(x01 * (x10 * x13 * x32) == x01 * x10 * x13 * x32);
    lemma_reorder4(x02, x10, x11, x33);
    assert(x02 * (x10 * x11 * x33) == x02 * x10 * x11 * x33);
    lemma_reorder4(x03, x10, x11, x32);
    assert(x03 * (x10 * x11 * x32) == x03 * x10 * x11 * x32);
    lemma_reorder4(x02, x10, x13, x31);
    assert(x02 * (x10 * x13 * x31) == x02 * x10 * x13 * x31);
    lemma_reorder4(x03, x10, x12, x31);
    assert(x03 * (x10 * x12 * x31) == x03 * x10 * x12 * x31);
    lemma_reorder4(x01, x12, x13, x30);
    assert(x01 * (x12 * x13 * x30) == x01 * x12 * x13 * x30);
    lemma_reorder4(x02, x11, x13, x30);
    assert(x02 * (x11 * x13 * x30) == x02 * x11 * x13 * x30);
    lemma_reorder4(x03, x11, x12, x30);
    assert(x03 * (x11 * x12 * x30) == x03 * x11 * x12 * x30);
}

/// The 24 products cancel in pairs when two rows agree.
pub proof fn lemma_det4_cancel_rows13(x00: int, x01: int, x02: int, x10: int, x11: int, x12: int, x20: int, x21: int, x22: int, x30: int, x31: int, x32: int)
    ensures
        x00 * x11 * x22 * x31 - x00 * x11 * x21 * x32 - x00 * x12 * x21 * x31 + x00 * x11 * x21 * x32 + x00 * x12 * x21 * x31 - x00 * x11 * x22 * x31 - x01 * x10 * x22 * x31 + x01 * x10 * x21 * x32 + x02 * x10 * x21 * x31 - x01 * x10 * x21 * x32 - x02 * x10 * x21 * x31 + x01 * x10 * x22 * x31 + x01 * x12 * x20 * x31 - x01 * x11 * x20 * x32 - x02 * x11 * x20 * x31 + x01 * x11 * x20 * x32 + x02 * x11 * x20 * x31 - x01 * x12 * x20 * x31 - x01 * x12 * x21 * x30 + x01 * x11 * x22 * x30 + x02 * x11 * x21 * x30 - x01 * x11 * x22 * x30 - x02 * x11 * x21 * x30 + x01 * x12 * x21 * x30 == 0,
{
    lemma_reorder4(x00, x11, x22, x31);
    assert(x00 * (x11 * x22 * x31) == x00 * x11 * x22 * x31);
    lemma_reorder4(x00, x11, x21, x32);
    assert(x00 * (x11 * x21 * x32) == x00 * x11 * x21 * x32);
    lemma_reorder4(x00, x12, x21, x31);
    assert(x00 * (x12 * x21 * x31) == x00 * x12 * x21 * x31);
    lemma_reorder4(x01, x10, x22, x31);
    assert(x01 * (x10 * x22 * x31) == x01 * x10 * x22 * x31);
    lemma_reorder4(x01, x10, x21, x32);
    assert(x01 * (x10 * x21 * x32) == x01 * x10 * x21 * x32);
    lemma_reorder4(x02, x10, x21, x31);
    assert(x02 * (x10 * x21 * x31) == x02 * x10 * x21 * x31);
    lemma_reorder4(x01, x12, x20, x31);
    assert(x01 * (x12 * x20 * x31) == x01 * x12 * x20 * x31);
    lemma_reorder4(x01, x11, x20, x32);
    assert(x01 * (x11 * x20 * x32) == x01 * x11 * x20 * x32);
    lemma_reorder4(x02, x11, x20, x31);
    assert(x02 * (x11 * x20 * x31) == x02 * x11 * x20 * x31);
    lemma_reorder4(x01, x12, x21, x30);
    assert(x01 * (x12 * x21 * x30) == x01 * x12 * x21 * x30);
    lemma_reorder4(x01, x11, x22, x30);
    assert(x01 * (x11 * x22 * x30) == x01 * x11 * x22 * x30);
    lemma_reorder4(x02, x11, x21, x30);
    assert(x02 * (x11 * x21 * x30) == x02 * x11 * x21 * x30);
}

/// The 24 products cancel in pairs when two columns agree.
pub proof fn lemma_det4_cancel_cols13(x00: int, x01: int, x02: int, x03: int, x10: int, x11: int, x12: int, x13: int, x20: int, x21: int, x22: int, x23: int)
    ensures
        x00 * x11 * x22 * x13 - x00 * x11 * x23 * x12 - x00 * x12 * x21 * x13 + x00 * x13 * x21 * x12 + x00 * x12 * x23 * x11 - x00 * x13 * x22 * x11 - x01 * x10 * x22 * x13 + x01 * x10 * x23 * x12 + x02 * x10 * x21 * x13 - x03 * x10 * x21 * x12 - x02 * x10 * x23 * x11 + x03 * x10 * x22 * x11 + x01 * x12 * x20 * x13 - x01 * x13 * x20 * x12 - x02 * x11 * x20 * x13 + x03 * x11 * x20 * x12 + x02 * x13 * x20 * x11 - x03 * x12 * x20 * x11 - x01 * x12 * x23 * x10 + x01 * x13 * x22 * x10 + x02 * x11 * x23 * x10 - x03 * x11 * x22 * x10 - x02 * x13 * x21 * x10 + x03 * x12 * x21 * x10 == 0,
{
    lemma_reorder4(x00, x11, x22, x13);
    assert(x00 * (x11 * x22 * x13) == x00 * x11 * x22 * x13);
    lemma_reorder4(x00, x11, x23, x12);
    assert(x00 * (x11 * x23 * x12) == x00 * x11 * x23 * x12);
    lemma_reorder4(x00, x12, x21, x13);
    assert(x00 * (x12 * x21 * x13) == x00 * x12 * x21 * x13);
    lemma_reorder4(x01, x10, x22, x13);
    assert(x01 * (x10 * x22 * x13) == x01 * x10 * x22 * x13);
    lemma_reorder4(x01, x10, x23, x12);
    assert(x01 * (x10 * x23 * x12) == x01 * x10 * x23 * x12);
    lemma_reorder4(x02, x10, x21, x13);
    assert(x02 * (x10 * x21 * x13) == x02 * x10 * x21 * x13);
    lemma_reorder4(x03, x10, x21, x12);
    assert(x03 * (x10 * x21 * x12) == x03 * x10 * x21 * x12);
    lemma_reorder4(x02, x10, x23, x11);
    assert(x02 * (x10 * x23 * x11) == x02 * x10 * x23 * x11);
    lemma_reorder4(x03, x10, x22, x11);
    assert(x03 * (x10 * x22 * x11) == x03 * x10 * x22 * x11);
    lemma_reorder4(x01, x12, x20, x13);
    assert(x01 * (x12 * x20 * x13) == x01 * x12 * x20 * x13);
    lemma_reorder4(x02, x11, x20, x13);
    assert(x02 * (x11 * x20 * x13) == x02 * x11 * x20 * x13);
    lemma_reorder4(x03, x11, x20, x12);
    assert(x03 * (x11 * x20 * x12) == x03 * x11 * x20 * x12);
}

/// The 24 products cancel in pairs when two rows agree.
pub proof fn lemma_det4_cancel_rows23(x00: int, x01: int, x02: int, x10: int, x11: int, x12: int, x20: int, x21: int, x22: int, x30: int, x31: int, x32: int)
    ensures
        x00 * x11 * x22 * x32 - x00 * x11 * x22 * x32 - x00 * x12 * x21 * x32 + x00 * x12 * x21 * x32 + x00 * x12 * x22 * x31 - x00 * x12 * x22 * x31 - x01 * x10 * x22 * x32 + x01 * x10 * x22 * x32 + x02 * x10 * x21 * x32 - x02 * x10 * x21 * x32 - x02 * x10 * x22 * x31 + x02 * x10 * x22 * x31 + x01 * x12 * x20 * x32 - x01 * x12 * x20 * x32 - x02 * x11 * x20 * x32 + x02 * x11 * x20 * x32 + x02 * x12 * x20 * x31 - x02 * x12 * x20 * x31 - x01 * x12 * x22 * x30 + x01 * x12 * x22 * x30 + x02 * x11 * x22 * x30 - x02 * x11 * x22 * x30 - x02 * x12 * x21 * x30 + x02 * x12 * x21 * x30 == 0,
{
    lemma_reorder4(x00, x11, x22, x32);
    assert(x00 * (x11 * x22 * x32) == x00 * x11 * x22 * x32);
    lemma_reorder4(x00, x12, x21, x32);
    assert(x00 * (x12 * x21 * x32) == x00 * x12 * x21 * x32);
    lemma_reorder4(x00, x12, x22, x31);
    assert(x00 * (x12 * x22 * x31) == x00 * x12 * x22 * x31);
    lemma_reorder4(x01, x10, x22, x32);
    assert(x01 * (x10 * x22 * x32) == x01 * x10 * x22 * x32);
    lemma_reorder4(x02, x10, x21, x32);
    assert(x02 * (x10 * x21 * x32) == x02 * x10 * x21 * x32);
    lemma_reorder4(x02, x10, x22, x31);
    assert(x02 * (x10 * x22 * x31) == x02 * x10 * x22 * x31);
    lemma_reorder4(x01, x12, x20, x32);
    assert(x01 * (x12 * x20 * x32) == x01 * x12 * x20 * x32);
    lemma_reorder4(x02, x11, x20, x32);
    assert(x02 * (x11 * x20 * x32) == x02 * x11 * x20 * x32);
    lemma_reorder4(x02, x12, x20, x31);
    assert(x02 * (x12 * x20 * x31) == x02 * x12 * x20 * x31);
    lemma_reorder4(x01, x12, x22, x30);
    assert(x01 * (x12 * x22 * x30) == x01 * x12 * x22 * x30);
    lemma_reorder4(x02, x11, x22, x30);
    assert(x02 * (x11 * x22 * x30) == x02 * x11 * x22 * x30);
    lemma_reorder4(x02, x12, x21, x30);
    assert(x02 * (x12 * x21 * x30) == x02 * x12 * x21 * x30);
}

/// The 24 products cancel in pairs when two columns agree.
pub proof fn lemma_det4_cancel_cols23(x00: int, x01: int, x02: int, x03: int, x10: int, x11: int, x12: int, x13: int, x20: int, x21: int, x22: int, x23: int)
    ensures
        x00 * x11 * x22 * x23 - x00 * x11 * x23 * x22 - x00 * x12 * x21 * x23 + x00 * x13 * x21 * x22 + x00 * x12 * x23 * x21 - x00 * x13 * x22 * x21 - x01 * x10 * x22 * x23 + x01 * x10 * x23 * x22 + x02 * x10 * x21 * x23 - x03 * x10 * x21 * x22 - x02 * x10 * x23 * x21 + x03 * x10 * x22 * x21 + x01 * x12 * x20 * x23 - x01 * x13 * x20 * x22 - x02 * x11 * x20 * x23 + x03 * x11 * x20 * x22 + x02 * x13 * x20 * x21 - x03 * x12 * x20 * x21 - x01 * x12 * x23 * x20 + x01 * x13 * x22 * x20 + x02 * x11 * x23 * x20 - x03 * x11 * x22 * x20 - x02 * x13 * x21 * x20 + x03 * x12 * x21 * x20 == 0,
{
    lemma_reorder4(x00, x11, x22, x23);
    assert(x00 * (x11 * x22 * x23) == x00 * x11 * x22 * x23);
    lemma_reorder4(x00, x12, x21, x23);
    assert(x00 * (x12 * x21 * x23) == x00 * x12 * x21 * x23);
    lemma_reorder4(x00, x13, x21, x22);
    assert(x00 * (x13 * x21 * x22) == x00 * x13 * x21 * x22);
    lemma_reorder4(x01, x10, x22, x23);
    assert(x01 * (x10 * x22 * x23) == x01 * x10 * x22 * x23);
    lemma_reorder4(x02, x10, x21, x23);
    assert(x02 * (x10 * x21 * x23) == x02 * x10 * x21 * x23);
    lemma_reorder4(x03, x10, x21, x22);
    assert(x03 * (x10 * x21 * x22) == x03 * x10 * x21 * x22);
    lemma_reorder4(x01, x12, x20, x23);
    assert(x01 * (x12 * x20 * x23) == x01 * x12 * x20 * x23);
    lemma_reorder4(x01, x13, x20, x22);
    assert(x01 * (x13 * x20 * x22) == x01 * x13 * x20 * x22);
    lemma_reorder4(x02, x11, x20, x23);
    assert(x02 * (x11 * x20 * x23) == x02 * x11 * x20 * x23);
    lemma_reorder4(x03, x11, x20, x22);
    assert(x03 * (x11 * x20 * x22) == x03 * x11 * x20 * x22);
    lemma_reorder4(x02, x13, x20, x21);
    assert(x02 * (x13 * x20 * x21) == x02 * x13 * x20 * x21);
    lemma_reorder4(x03, x12, x20, x21);
    assert(x03 * (x12 * x20 * x21) == x03 * x12 * x20 * x21);
}


/// Expanding along one first index with the cofactors of another gives the 4 x 4
/// determinant when the two agree and zero otherwise.
pub proof fn lemma_adjugate4_integers(x00: int, x10: int, x20: int, x30: int, x01: int, x11: int, x21: int, x31: int, x02: int, x12: int, x22: int, x32: int, x03: int, x13: int, x23: int, x33: int)
    ensures
        x00 * (x11 * (x22 * x33 - x32 * x23) - x21 * (x12 * x33 - x32 * x13) + x31 * (x12 * x23 - x22 * x13)) - x01 * (x10 * (x22 * x33 - x32 * x23) - x20 * (x12 * x33 - x32 * x13) + x30 * (x12 * x23 - x22 * x13)) + x02 * (x10 * (x21 * x33 - x31 * x23) - x20 * (x11 * x33 - x31 * x13) + x30 * (x11 * x23 - x21 * x13)) - x03 * (x10 * (x21 * x32 - x31 * x22) - x20 * (x11 * x32 - x31 * x12) + x30 * (x11 * x22 - x21 * x12)) == x00 * x11 * x22 * x33 - x00 * x11 * x23 * x32 - x00 * x12 * x21 * x33 + x00 * x13 * x21 * x32 + x00 * x12 * x23 * x31 - x00 * x13 * x22 * x31 - x01 * x10 * x22 * x33 + x01 * x10 * x23 * x32 + x02 * x10 * x21 * x33 - x03 * x10 * x21 * x32 - x02 * x10 * x23 * x31 + x03 * x10 * x22 * x31 + x01 * x12 * x20 * x33 - x01 * x13 * x20 * x32 - x02 * x11 * x20 * x33 + x03 * x11 * x20 * x32 + x02 * x13 * x20 * x31 - x03 * x12 * x20 * x31 - x01 * x12 * x23 * x30 + x01 * x13 * x22 * x30 + x02 * x11 * x23 * x30 - x03 * x11 * x22 * x30 - x02 * x13 * x21 * x30 + x03 * x12 * x21 * x30,
        -(x00 * (x01 * (x22 * x33 - x32 * x23) - x21 * (x02 * x33 - x32 * x03) + x31 * (x02 * x23 - x22 * x03))) + x01 * (x00 * (x22 * x33 - x32 * x23) - x20 * (x02 * x33 - x32 * x03) + x30 * (x02 * x23 - x22 * x03)) - x02 * (x00 * (x21 * x33 - x31 * x23) - x20 * (x01 * x33 - x31 * x03) + x30 * (x01 * x23 - x21 * x03)) + x03 * (x00 * (x21 * x32 - x31 * x22) - x20 * (x01 * x32 - x31 * x02) + x30 * (x01 * x22 - x21 * x02)) == 0,
        x00 * (x01 * (x12 * x33 - x32 * x13) - x11 * (x02 * x33 - x32 * x03) + x31 * (x02 * x13 - x12 * x03)) - x01 * (x00 * (x12 * x33 - x32 * x13) - x10 * (x02 * x33 - x32 * x03) + x30 * (x02 * x13 - x12 * x03)) + x02 * (x00 * (x11 * x33 - x31 * x13) - x10 * (x01 * x33 - x31 * x03) + x30 * (x01 * x13 - x11 * x03)) - x03 * (x00 * (x11 * x32 - x31 * x12) - x10 * (x01 * x32 - x31 * x02) + x30 * (x01 * x12 - x11 * x02)) == 0,
        -(x00 * (x01 * (x12 * x23 - x22 * x13) - x11 * (x02 * x23 - x22 * x03) + x21 * (x02 * x13 - x12 * x03))) + x01 * (x00 * (x12 * x23 - x22 * x13) - x10 * (x02 * x23 - x22 * x03) + x20 * (x02 * x13 - x12 * x03)) - x02 * (x00 * (x11 * x23 - x21 * x13) - x10 * (x01 * x23 - x21 * x03) + x20 * (x01 * x13 - x11 * x03)) + x03 * (x00 * (x11 * x22 - x21 * x12) - x10 * (x01 * x22 - x21 * x02) + x20 * (x01 * x12 - x11 * x02)) == 0,
        x10 * (x11 * (x22 * x33 - x32 * x23) - x21 * (x12 * x33 - x32 * x13) + x31 * (x12 * x23 - x22 * x13)) - x11 * (x10 * (x22 * x33 - x32 * x23) - x20 * (x12 * x33 - x32 * x13) + x30 * (x12 * x23 - x22 * x13)) + x12 * (x10 * (x21 * x33 - x31 * x23) - x20 * (x11 * x33 - x31 * x13) + x30 * (x11 * x23 - x21 * x13)) - x13 * (x10 * (x21 * x32 - x31 * x22) - x20 * (x11 * x32 - x31 * x12) + x30 * (x11 * x22 - x21 * x12)) == 0,
        -(x10 * (x01 * (x22 * x33 - x32 * x23) - x21 * (x02 * x33 - x32 * x03) + x31 * (x02 * x23 - x22 * x03))) + x11 * (x00 * (x22 * x33 - x32 * x23) - x20 * (x02 * x33 - x32 * x03) + x30 * (x02 * x23 - x22 * x03)) - x12 * (x00 * (x21 * x33 - x31 * x23) - x20 * (x01 * x33 - x31 * x03) + x30 * (x01 * x23 - x21 * x03)) + x13 * (x00 * (x21 * x32 - x31 * x22) - x20 * (x01 * x32 - x31 * x02) + x30 * (x01 * x22 - x21 * x02)) == x00 * x11 * x22 * x33 - x00 * x11 * x23 * x32 - x00 * x12 * x21 * x33 + x00 * x13 * x21 * x32 + x00 * x12 * x23 * x31 - x00 * x13 * x22 * x31 - x01 * x10 * x22 * x33 + x01 * x10 * x23 * x32 + x02 * x10 * x21 * x33 - x03 * x10 * x21 * x32 - x02 * x10 * x23 * x31 + x03 * x10 * x22 * x31 + x01 * x12 * x20 * x33 - x01 * x13 * x20 * x32 - x02 * x11 * x20 * x33 + x03 * x11 * x20 * x32 + x02 * x13 * x20 * x31 - x03 * x12 * x20 * x31 - x01 * x12 * x23 * x30 + x01 * x13 * x22 * x30 + x02 * x11 * x23 * x30 - x03 * x11 * x22 * x30 - x02 * x13 * x21 * x30 + x03 * x12 * x21 * x30,
        x10 * (x01 * (x12 * x33 - x32 * x13) - x11 * (x02 * x33 - x32 * x03) + x31 * (x02 * x13 - x12 * x03)) - x11 * (x00 * (x12 * x33 - x32 * x13) - x10 * (x02 * x33 - x32 * x03) + x30 * (x02 * x13 - x12 * x03)) + x12 * (x00 * (x11 * x33 - x31 * x13) - x10 * (x01 * x33 - x31 * x03) + x30 * (x01 * x13 - x11 * x03)) - x13 * (x00 * (x11 * x32 - x31 * x12) - x10 * (x01 * x32 - x31 * x02) + x30 * (x01 * x12 - x11 * x02)) == 0,
        -(x10 * (x01 * (x12 * x23 - x22 * x13) - x11 * (x02 * x23 - x22 * x03) + x21 * (x02 * x13 - x12 * x03))) + x11 * (x00 * (x12 * x23 - x22 * x13) - x10 * (x02 * x23 - x22 * x03) + x20 * (x02 * x13 - x12 * x03)) - x12 * (x00 * (x11 * x23 - x21 * x13) - x10 * (x01 * x23 - x21 * x03) + x20 * (x01 * x13 - x11 * x03)) + x13 * (x00 * (x11 * x22 - x21 * x12) - x10 * (x01 * x22 - x21 * x02) + x20 * (x01 * x12 - x11 * x02)) == 0,
        x20 * (x11 * (x22 * x33 - x32 * x23) - x21 * (x12 * x33 - x32 * x13) + x31 * (x12 * x23 - x22 * x13)) - x21 * (x10 * (x22 * x33 - x32 * x23) - x20 * (x12 * x33 - x32 * x13) + x30 * (x12 * x23 - x22 * x13)) + x22 * (x10 * (x21 * x33 - x31 * x23) - x20 * (x11 * x33 - x31 * x13) + x30 * (x11 * x23 - x21 * x13)) - x23 * (x10 * (x21 * x32 - x31 * x22) - x20 * (x11 * x32 - x31 * x12) + x30 * (x11 * x22 - x21 * x12)) == 0,
        -(x20 * (x01 * (x22 * x33 - x32 * x23) - x21 * (x02 * x33 - x32 * x03) + x31 * (x02 * x23 - x22 * x03))) + x21 * (x00 * (x22 * x33 - x32 * x23) - x20 * (x02 * x33 - x32 * x03) + x30 * (x02 * x23 - x22 * x03)) - x22 * (x00 * (x21 * x33 - x31 * x23) - x20 * (x01 * x33 - x31 * x03) + x30 * (x01 * x23 - x21 * x03)) + x23 * (x00 * (x21 * x32 - x31 * x22) - x20 * (x01 * x32 - x31 * x02) + x30 * (x01 * x22 - x21 * x02)) == 0,
        x20 * (x01 * (x12 * x33 - x32 * x13) - x11 * (x02 * x33 - x32 * x03) + x31 * (x02 * x13 - x12 * x03)) - x21 * (x00 * (x12 * x33 - x32 * x13) - x10 * (x02 * x33 - x32 * x03) + x30 * (x02 * x13 - x12 * x03)) + x22 * (x00 * (x11 * x33 - x31 * x13) - x10 * (x01 * x33 - x31 * x03) + x30 * (x01 * x13 - x11 * x03)) - x23 * (x00 * (x11 * x32 - x31 * x12) - x10 * (x01 * x32 - x31 * x02) + x30 * (x01 * x12 - x11 * x02)) == x00 * x11 * x22 * x33 - x00 * x11 * x23 * x32 - x00 * x12 * x21 * x33 + x00 * x13 * x21 * x32 + x00 * x12 * x23 * x31 - x00 * x13 * x22 * x31 - x01 * x10 * x22 * x33 + x01 * x10 * x23 * x32 + x02 * x10 * x21 * x33 - x03 * x10 * x21 * x32 - x02 * x10 * x23 * x31 + x03 * x10 * x22 * x31 + x01 * x12 * x20 * x33 - x01 * x13 * x20 * x32 - x02 * x11 * x20 * x33 + x03 * x11 * x20 * x32 + x02 * x13 * x20 * x31 - x03 * x12 * x20 * x31 - x01 * x12 * x23 * x30 + x01 * x13 * x22 * x30 + x02 * x11 * x23 * x30 - x03 * x11 * x22 * x30 - x02 * x13 * x21 * x30 + x03 * x12 * x21 * x30,
        -(x20 * (x01 * (x12 * x23 - x22 * x13) - x11 * (x02 * x23 - x22 * x03) + x21 * (x02 * x13 - x12 * x03))) + x21 * (x00 * (x12 * x23 - x22 * x13) - x10 * (x02 * x23 - x22 * x03) + x20 * (x02 * x13 - x12 * x03)) - x22 * (x00 * (x11 * x23 - x21 * x13) - x10 * (x01 * x23 - x21 * x03) + x20 * (x01 * x13 - x11 * x03)) + x23 * (x00 * (x11 * x22 - x21 * x12) - x10 * (x01 * x22 - x21 * x02) + x20 * (x01 * x12 - x11 * x02)) == 0,
        x30 * (x11 * (x22 * x33 - x32 * x23) - x21 * (x12 * x33 - x32 * x13) + x31 * (x12 * x23 - x22 * x13)) - x31 * (x10 * (x22 * x33 - x32 * x23) - x20 * (x12 * x33 - x32 * x13) + x30 * (x12 * x23 - x22 * x13)) + x32 * (x10 * (x21 * x33 - x31 * x23) - x20 * (x11 * x33 - x31 * x13) + x30 * (x11 * x23 - x21 * x13)) - x33 * (x10 * (x21 * x32 - x31 * x22) - x20 * (x11 * x32 - x31 * x12) + x30 * (x11 * x22 - x21 * x12)) == 0,
        -(x30 * (x01 * (x22 * x33 - x32 * x23) - x21 * (x02 * x33 - x32 * x03) + x31 * (x02 * x23 - x22 * x03))) + x31 * (x00 * (x22 * x33 - x32 * x23) - x20 * (x02 * x33 - x32 * x03) + x30 * (x02 * x23 - x22 * x03)) - x32 * (x00 * (x21 * x33 - x31 * x23) - x20 * (x01 * x33 - x31 * x03) + x30 * (x01 * x23 - x21 * x03)) + x33 * (x00 * (x21 * x32 - x31 * x22) - x20 * (x01 * x32 - x31 * x02) + x30 * (x01 * x22 - x21 * x02)) == 0,
        x30 * (x01 * (x12 * x33 - x32 * x13) - x11 * (x02 * x33 - x32 * x03) + x31 * (x02 * x13 - x12 * x03)) - x31 * (x00 * (x12 * x33 - x32 * x13) - x10 * (x02 * x33 - x32 * x03) + x30 * (x02 * x13 - x12 * x03)) + x32 * (x00 * (x11 * x33 - x31 * x13) - x10 * (x01 * x33 - x31 * x03) + x30 * (x01 * x13 - x11 * x03)) - x33 * (x00 * (x11 * x32 - x31 * x12) - x10 * (x01 * x32 - x31 * x02) + x30 * (x01 * x12 - x11 * x02)) == 0,
        -(x30 * (x01 * (x12 * x23 - x22 * x13) - x11 * (x02 * x23 - x22 * x03) + x21 * (x02 * x13 - x12 * x03))) + x31 * (x00 * (x12 * x23 - x22 * x13) - x10 * (x02 * x23 - x22 * x03) + x20 * (x02 * x13 - x12 * x03)) - x32 * (x00 * (x11 * x23 - x21 * x13) - x10 * (x01 * x23 - x21 * x03) + x20 * (x01 * x13 - x11 * x03)) + x33 * (x00 * (x11 * x22 - x21 * x12) - x10 * (x01 * x22 - x21 * x02) + x20 * (x01 * x12 - x11 * x02)) == x00 * x11 * x22 * x33 - x00 * x11 * x23 * x32 - x00 * x12 * x21 * x33 + x00 * x13 * x21 * x32 + x00 * x12 * x23 * x31 - x00 * x13 * x22 * x31 - x01 * x10 * x22 * x33 + x01 * x10 * x23 * x32 + x02 * x10 * x21 * x33 - x03 * x10 * x21 * x32 - x02 * x10 * x23 * x31 + x03 * x10 * x22 * x31 + x01 * x12 * x20 * x33 - x01 * x13 * x20 * x32 - x02 * x11 * x20 * x33 + x03 * x11 * x20 * x32 + x02 * x13 * x20 * x31 - x03 * x12 * x20 * x31 - x01 * x12 * x23 * x30 + x01 * x13 * x22 * x30 + x02 * x11 * x23 * x30 - x03 * x11 * x22 * x30 - x02 * x13 * x21 * x30 + x03 * x12 * x21 * x30,
{
    lemma_expand3(x11, x21, x31, x12, x22, x32, x13, x23, x33);
    lemma_scale6(x00, x11 * x22 * x33, x11 * x32 * x23, x21 * x12 * x33, x21 * x32 * x13, x31 * x12 * x23, x31 * x22 * x13);
    lemma_reorder4(x00, x11, x22, x33);
    lemma_reorder4(x00, x11, x32, x23);
    lemma_reorder4(x00, x21, x12, x33);
    lemma_reorder4(x00, x21, x32, x13);
    lemma_reorder4(x00, x31, x12, x23);
    lemma_reorder4(x00, x31, x22, x13);
    lemma_scale6(x10, x11 * x22 * x33, x11 * x32 * x23, x21 * x12 * x33, x21 * x32 * x13, x31 * x12 * x23, x31 * x22 * x13);
    lemma_reorder4(x10, x11, x22, x33);
    lemma_reorder4(x10, x11, x32, x23);
    lemma_reorder4(x10, x21, x12, x33);
    lemma_reorder4(x10, x21, x32, x13);
    lemma_reorder4(x10, x31, x12, x23);
    lemma_reorder4(x10, x31, x22, x13);
    lemma_scale6(x20, x11 * x22 * x33, x11 * x32 * x23, x21 * x12 * x33, x21 * x32 * x13, x31 * x12 * x23, x31 * x22 * x13);
    lemma_reorder4(x20, x11, x22, x33);
    lemma_reorder4(x20, x11, x32, x23);
    lemma_reorder4(x20, x21, x12, x33);
    lemma_reorder4(x20, x21, x32, x13);
    lemma_reorder4(x20, x31, x12, x23);
    lemma_reorder4(x20, x31, x22, x13);
    lemma_scale6(x30, x11 * x22 * x33, x11 * x32 * x23, x21 * x12 * x33, x21 * x32 * x13, x31 * x12 * x23, x31 * x22 * x13);
    lemma_reorder4(x30, x11, x22, x33);
    lemma_reorder4(x30, x11, x32, x23);
    lemma_reorder4(x30, x21, x12, x33);
    lemma_reorder4(x30, x21, x32, x13);
    lemma_reorder4(x30, x31, x12, x23);
    lemma_reorder4(x30, x31, x22, x13);
    lemma_expand3(x10, x20, x30, x12, x22, x32, x13, x23, x33);
    lemma_scale6(x01, x10 * x22 * x33, x10 * x32 * x23, x20 * x12 * x33, x20 * x32 * x13, x30 * x12 * x23, x30 * x22 * x13);
    lemma_reorder4(x01, x10, x22, x33);
    lemma_reorder4(x01, x10, x32, x23);
    lemma_reorder4(x01, x20, x12, x33);
    lemma_reorder4(x01, x20, x32, x13);
    lemma_reorder4(x01, x30, x12, x23);
    lemma_reorder4(x01, x30, x22, x13);
    lemma_scale6(x11, x10 * x22 * x33, x10 * x32 * x23, x20 * x12 * x33, x20 * x32 * x13, x30 * x12 * x23, x30 * x22 * x13);
    lemma_reorder4(x11, x10, x22, x33);
    lemma_reorder4(x11, x10, x32, x23);
    lemma_reorder4(x11, x20, x12, x33);
    lemma_reorder4(x11, x20, x32, x13);
    lemma_reorder4(x11, x30, x12, x23);
    lemma_reorder4(x11, x30, x22, x13);
    lemma_scale6(x21, x10 * x22 * x33, x10 * x32 * x23, x20 * x12 * x33, x20 * x32 * x13, x30 * x12 * x23, x30 * x22 * x13);
    lemma_reorder4(x21, x10, x22, x33);
    lemma_reorder4(x21, x10, x32, x23);
    lemma_reorder4(x21, x20, x12, x33);
    lemma_reorder4(x21, x20, x32, x13);
    lemma_reorder4(x21, x30, x12, x23);
    lemma_reorder4(x21, x30, x22, x13);
    lemma_scale6(x31, x10 * x22 * x33, x10 * x32 * x23, x20 * x12 * x33, x20 * x32 * x13, x30 * x12 * x23, x30 * x22 * x13);
    lemma_reorder4(x31, x10, x22, x33);
    lemma_reorder4(x31, x10, x32, x23);
    lemma_reorder4(x31, x20, x12, x33);
    lemma_reorder4(x31, x20, x32, x13);
    lemma_reorder4(x31, x30, x12, x23);
    lemma_reorder4(x31, x30, x22, x13);
    lemma_expand3(x10, x20, x30, x11, x21, x31, x13, x23, x33);
    lemma_scale6(x02, x10 * x21 * x33, x10 * x31 * x23, x20 * x11 * x33, x20 * x31 * x13, x30 * x11 * x23, x30 * x21 * x13);
    lemma_reorder4(x02, x10, x21, x33);
    lemma_reorder4(x02, x10, x31, x23);
    lemma_reorder4(x02, x20, x11, x33);
    lemma_reorder4(x02, x20, x31, x13);
    lemma_reorder4(x02, x30, x11, x23);
    lemma_reorder4(x02, x30, x21, x13);
    lemma_scale6(x12, x10 * x21 * x33, x10 * x31 * x23, x20 * x11 * x33, x20 * x31 * x13, x30 * x11 * x23, x30 * x21 * x13);
    lemma_reorder4(x12, x10, x21, x33);
    lemma_reorder4(x12, x10, x31, x23);
    lemma_reorder4(x12, x20, x11, x33);
    lemma_reorder4(x12, x20, x31, x13);
    lemma_reorder4(x12, x30, x11, x23);
    lemma_reorder4(x12, x30, x21, x13);
    lemma_scale6(x22, x10 * x21 * x33, x10 * x31 * x23, x20 * x11 * x33, x20 * x31 * x13, x30 * x11 * x23, x30 * x21 * x13);
    lemma_reorder4(x22, x10, x21, x33);
    lemma_reorder4(x22, x10, x31, x23);
    lemma_reorder4(x22, x20, x11, x33);
    lemma_reorder4(x22, x20, x31, x13);
    lemma_reorder4(x22, x30, x11, x23);
    lemma_reorder4(x22, x30, x21, x13);
    lemma_scale6(x32, x10 * x21 * x33, x10 * x31 * x23, x20 * x11 * x33, x20 * x31 * x13, x30 * x11 * x23, x30 * x21 * x13);
    lemma_reorder4(x32, x10, x21, x33);
    lemma_reorder4(x32, x10, x31, x23);
    lemma_reorder4(x32, x20, x11, x33);
    lemma_reorder4(x32, x20, x31, x13);
    lemma_reorder4(x32, x30, x11, x23);
    lemma_reorder4(x32, x30, x21, x13);
    lemma_expand3(x10, x20, x30, x11, x21, x31, x12, x22, x32);
    lemma_scale6(x03, x10 * x21 * x32, x10 * x31 * x22, x20 * x11 * x32, x20 * x31 * x12, x30 * x11 * x22, x30 * x21 * x12);
    lemma_reorder4(x03, x10, x21, x32);
    lemma_reorder4(x03, x10, x31, x22);
    lemma_reorder4(x03, x20, x11, x32);
    lemma_reorder4(x03, x20, x31, x12);
    lemma_reorder4(x03, x30, x11, x22);
    lemma_reorder4(x03, x30, x21, x12);
    lemma_scale6(x13, x10 * x21 * x32, x10 * x31 * x22, x20 * x11 * x32, x20 * x31 * x12, x30 * x11 * x22, x30 * x21 * x12);
    lemma_reorder4(x13, x10, x21, x32);
    lemma_reorder4(x13, x10, x31, x22);
    lemma_reorder4(x13, x20, x11, x32);
    lemma_reorder4(x13, x20, x31, x12);
    lemma_reorder4(x13, x30, x11, x22);
    lemma_reorder4(x13, x30, x21, x12);
    lemma_scale6(x23, x10 * x21 * x32, x10 * x31 * x22, x20 * x11 * x32, x20 * x31 * x12, x30 * x11 * x22, x30 * x21 * x12);
    lemma_reorder4(x23, x10, x21, x32);
    lemma_reorder4(x23, x10, x31, x22);
    lemma_reorder4(x23, x20, x11, x32);
    lemma_reorder4(x23, x20, x31, x12);
    lemma_reorder4(x23, x30, x11, x22);
    lemma_reorder4(x23, x30, x21, x12);
    lemma_scale6(x33, x10 * x21 * x32, x10 * x31 * x22, x20 * x11 * x32, x20 * x31 * x12, x30 * x11 * x22, x30 * x21 * x12);
    lemma_reorder4(x33, x10, x21, x32);
    lemma_reorder4(x33, x10, x31, x22);
    lemma_reorder4(x33, x20, x11, x32);
    lemma_reorder4(x33, x20, x31, x12);
    lemma_reorder4(x33, x30, x11, x22);
    lemma_reorder4(x33, x30, x21, x12);
    lemma_expand3(x01, x21, x31, x02, x22, x32, x03, x23, x33);
    lemma_scale6(x00, x01 * x22 * x33, x01 * x32 * x23, x21 * x02 * x33, x21 * x32 * x03, x31 * x02 * x23, x31 * x22 * x03);
    lemma_reorder4(x00, x01, x22, x33);
    lemma_reorder4(x00, x01, x32, x23);
    lemma_reorder4(x00, x21, x02, x33);
    lemma_reorder4(x00, x21, x32, x03);
    lemma_reorder4(x00, x31, x02, x23);
    lemma_reorder4(x00, x31, x22, x03);
    lemma_scale6(x10, x01 * x22 * x33, x01 * x32 * x23, x21 * x02 * x33, x21 * x32 * x03, x31 * x02 * x23, x31 * x22 * x03);
    lemma_reorder4(x10, x01, x22, x33);
    lemma_reorder4(x10, x01, x32, x23);
    lemma_reorder4(x10, x21, x02, x33);
    lemma_reorder4(x10, x21, x32, x03);
    lemma_reorder4(x10, x31, x02, x23);
    lemma_reorder4(x10, x31, x22, x03);
    lemma_scale6(x20, x01 * x22 * x33, x01 * x32 * x23, x21 * x02 * x33, x21 * x32 * x03, x31 * x02 * x23, x31 * x22 * x03);
    lemma_reorder4(x20, x01, x22, x33);
    lemma_reorder4(x20, x01, x32, x23);
    lemma_reorder4(x20, x21, x02, x33);
    lemma_reorder4(x20, x21, x32, x03);
    lemma_reorder4(x20, x31, x02, x23);
    lemma_reorder4(x20, x31, x22, x03);
    lemma_scale6(x30, x01 * x22 * x33, x01 * x32 * x23, x21 * x02 * x33, x21 * x32 * x03, x31 * x02 * x23, x31 * x22 * x03);
    lemma_reorder4(x30, x01, x22, x33);
    lemma_reorder4(x30, x01, x32, x23);
    lemma_reorder4(x30, x21, x02, x33);
    lemma_reorder4(x30, x21, x32, x03);
    lemma_reorder4(x30, x31, x02, x23);
    lemma_reorder4(x30, x31, x22, x03);
    lemma_expand3(x00, x20, x30, x02, x22, x32, x03, x23, x33);
    lemma_scale6(x01, x00 * x22 * x33, x00 * x32 * x23, x20 * x02 * x33, x20 * x32 * x03, x30 * x02 * x23, x30 * x22 * x03);
    lemma_reorder4(x01, x00, x22, x33);
    lemma_reorder4(x01, x00, x32, x23);
    lemma_reorder4(x01, x20, x02, x33);
    lemma_reorder4(x01, x20, x32, x03);
    lemma_reorder4(x01, x30, x02, x23);
    lemma_reorder4(x01, x30, x22, x03);
    lemma_scale6(x11, x00 * x22 * x33, x00 * x32 * x23, x20 * x02 * x33, x20 * x32 * x03, x30 * x02 * x23, x30 * x22 * x03);
    lemma_reorder4(x11, x00, x22, x33);
    lemma_reorder4(x11, x00, x32, x23);
    lemma_reorder4(x11, x20, x02, x33);
    lemma_reorder4(x11, x20, x32, x03);
    lemma_reorder4(x11, x30, x02, x23);
    lemma_reorder4(x11, x30, x22, x03);
    lemma_scale6(x21, x00 * x22 * x33, x00 * x32 * x23, x20 * x02 * x33, x20 * x32 * x03, x30 * x02 * x23, x30 * x22 * x03);
    lemma_reorder4(x21, x00, x22, x33);
    lemma_reorder4(x21, x00, x32, x23);
    lemma_reorder4(x21, x20, x02, x33);
    lemma_reorder4(x21, x20, x32, x03);
    lemma_reorder4(x21, x30, x02, x23);
    lemma_reorder4(x21, x30, x22, x03);
    lemma_scale6(x31, x00 * x22 * x33, x00 * x32 * x23, x20 * x02 * x33, x20 * x32 * x03, x30 * x02 * x23, x30 * x22 * x03);
    lemma_reorder4(x31, x00, x22, x33);
    lemma_reorder4(x31, x00, x32, x23);
    lemma_reorder4(x31, x20, x02, x33);
    lemma_reorder4(x31, x20, x32, x03);
    lemma_reorder4(x31, x30, x02, x23);
    lemma_reorder4(x31, x30, x22, x03);
    lemma_expand3(x00, x20, x30, x01, x21, x31, x03, x23, x33);
    lemma_scale6(x02, x00 * x21 * x33, x00 * x31 * x23, x20 * x01 * x33, x20 * x31 * x03, x30 * x01 * x23, x30 * x21 * x03);
    lemma_reorder4(x02, x00, x21, x33);
    lemma_reorder4(x02, x00, x31, x23);
    lemma_reorder4(x02, x20, x01, x33);
    lemma_reorder4(x02, x20, x31, x03);
    lemma_reorder4(x02, x30, x01, x23);
    lemma_reorder4(x02, x30, x21, x03);
    lemma_scale6(x12, x00 * x21 * x33, x00 * x31 * x23, x20 * x01 * x33, x20 * x31 * x03, x30 * x01 * x23, x30 * x21 * x03);
    lemma_reorder4(x12, x00, x21, x33);
    lemma_reorder4(x12, x00, x31, x23);
    lemma_reorder4(x12, x20, x01, x33);
    lemma_reorder4(x12, x20, x31, x03);
    lemma_reorder4(x12, x30, x01, x23);
    lemma_reorder4(x12, x30, x21, x03);
    lemma_scale6(x22, x00 * x21 * x33, x00 * x31 * x23, x20 * x01 * x33, x20 * x31 * x03, x30 * x01 * x23, x30 * x21 * x03);
    lemma_reorder4(x22, x00, x21, x33);
    lemma_reorder4(x22, x00, x31, x23);
    lemma_reorder4(x22, x20, x01, x33);
    lemma_reorder4(x22, x20, x31, x03);
    lemma_reorder4(x22, x30, x01, x23);
    lemma_reorder4(x22, x30, x21, x03);
    lemma_scale6(x32, x00 * x21 * x33, x00 * x31 * x23, x20 * x01 * x33, x20 * x31 * x03, x30 * x01 * x23, x30 * x21 * x03);
    lemma_reorder4(x32, x00, x21, x33);
    lemma_reorder4(x32, x00, x31, x23);
    lemma_reorder4(x32, x20, x01, x33);
    lemma_reorder4(x32, x20, x31, x03);
    lemma_reorder4(x32, x30, x01, x23);
    lemma_reorder4(x32, x30, x21, x03);
    lemma_expand3(x00, x20, x30, x01, x21, x31, x02, x22, x32);
    lemma_scale6(x03, x00 * x21 * x32, x00 * x31 * x22, x20 * x01 * x32, x20 * x31 * x02, x30 * x01 * x22, x30 * x21 * x02);
    lemma_reorder4(x03, x00, x21, x32);
    lemma_reorder4(x03, x00, x31, x22);
    lemma_reorder4(x03, x20, x01, x32);
    lemma_reorder4(x03, x20, x31, x02);
    lemma_reorder4(x03, x30, x01, x22);
    lemma_reorder4(x03, x30, x21, x02);
    lemma_scale6(x13, x00 * x21 * x32, x00 * x31 * x22, x20 * x01 * x32, x20 * x31 * x02, x30 * x01 * x22, x30 * x21 * x02);
    lemma_reorder4(x13, x00, x21, x32);
    lemma_reorder4(x13, x00, x31, x22);
    lemma_reorder4(x13, x20, x01, x32);
    lemma_reorder4(x13, x20, x31, x02);
    lemma_reorder4(x13, x30, x01, x22);
    lemma_reorder4(x13, x30, x21, x02);
    lemma_scale6(x23, x00 * x21 * x32, x00 * x31 * x22, x20 * x01 * x32, x20 * x31 * x02, x30 * x01 * x22, x30 * x21 * x02);
    lemma_reorder4(x23, x00, x21, x32);
    lemma_reorder4(x23, x00, x31, x22);
    lemma_reorder4(x23, x20, x01, x32);
    lemma_reorder4(x23, x20, x31, x02);
    lemma_reorder4(x23, x30, x01, x22);
    lemma_reorder4(x23, x30, x21, x02);
    lemma_scale6(x33, x00 * x21 * x32, x00 * x31 * x22, x20 * x01 * x32, x20 * x31 * x02, x30 * x01 * x22, x30 * x21 * x02);
    lemma_reorder4(x33, x00, x21, x32);
    lemma_reorder4(x33, x00, x31, x22);
    lemma_reorder4(x33, x20, x01, x32);
    lemma_reorder4(x33, x20, x31, x02);
    lemma_reorder4(x33, x30, x01, x22);
    lemma_reorder4(x33, x30, x21, x02);
    lemma_expand3(x01, x11, x31, x02, x12, x32, x03, x13, x33);
    lemma_scale6(x00, x01 * x12 * x33, x01 * x32 * x13, x11 * x02 * x33, x11 * x32 * x03, x31 * x02 * x13, x31 * x12 * x03);
    lemma_reorder4(x00, x01, x12, x33);
    lemma_reorder4(x00, x01, x32, x13);
    lemma_reorder4(x00, x11, x02, x33);
    lemma_reorder4(x00, x11, x32, x03);
    lemma_reorder4(x00, x31, x02, x13);
    lemma_reorder4(x00, x31, x12, x03);
    lemma_scale6(x10, x01 * x12 * x33, x01 * x32 * x13, x11 * x02 * x33, x11 * x32 * x03, x31 * x02 * x13, x31 * x12 * x03);
    lemma_reorder4(x10, x01, x12, x33);
    lemma_reorder4(x10, x01, x32, x13);
    lemma_reorder4(x10, x11, x02, x33);
    lemma_reorder4(x10, x11, x32, x03);
    lemma_reorder4(x10, x31, x02, x13);
    lemma_reorder4(x10, x31, x12, x03);
    lemma_scale6(x20, x01 * x12 * x33, x01 * x32 * x13, x11 * x02 * x33, x11 * x32 * x03, x31 * x02 * x13, x31 * x12 * x03);
    lemma_reorder4(x20, x01, x12, x33);
    lemma_reorder4(x20, x01, x32, x13);
    lemma_reorder4(x20, x11, x02, x33);
    lemma_reorder4(x20, x11, x32, x03);
    lemma_reorder4(x20, x31, x02, x13);
    lemma_reorder4(x20, x31, x12, x03);
    lemma_scale6(x30, x01 * x12 * x33, x01 * x32 * x13, x11 * x02 * x33, x11 * x32 * x03, x31 * x02 * x13, x31 * x12 * x03);
    lemma_reorder4(x30, x01, x12, x33);
    lemma_reorder4(x30, x01, x32, x13);
    lemma_reorder4(x30, x11, x02, x33);
    lemma_reorder4(x30, x11, x32, x03);
    lemma_reorder4(x30, x31, x02, x13);
    lemma_reorder4(x30, x31, x12, x03);
    lemma_expand3(x00, x10, x30, x02, x12, x32, x03, x13, x33);
    lemma_scale6(x01, x00 * x12 * x33, x00 * x32 * x13, x10 * x02 * x33, x10 * x32 * x03, x30 * x02 * x13, x30 * x12 * x03);
    lemma_reorder4(x01, x00, x12, x33);
    lemma_reorder4(x01, x00, x32, x13);
    lemma_reorder4(x01, x10, x02, x33);
    lemma_reorder4(x01, x10, x32, x03);
    lemma_reorder4(x01, x30, x02, x13);
    lemma_reorder4(x01, x30, x12, x03);
    lemma_scale6(x11, x00 * x12 * x33, x00 * x32 * x13, x10 * x02 * x33, x10 * x32 * x03, x30 * x02 * x13, x30 * x12 * x03);
    lemma_reorder4(x11, x00, x12, x33);
    lemma_reorder4(x11, x00, x32, x13);
    lemma_reorder4(x11, x10, x02, x33);
    lemma_reorder4(x11, x10, x32, x03);
    lemma_reorder4(x11, x30, x02, x13);
    lemma_reorder4(x11, x30, x12, x03);
    lemma_scale6(x21, x00 * x12 * x33, x00 * x32 * x13, x10 * x02 * x33, x10 * x32 * x03, x30 * x02 * x13, x30 * x12 * x03);
    lemma_reorder4(x21, x00, x12, x33);
    lemma_reorder4(x21, x00, x32, x13);
    lemma_reorder4(x21, x10, x02, x33);
    lemma_reorder4(x21, x10, x32, x03);
    lemma_reorder4(x21, x30, x02, x13);
    lemma_reorder4(x21, x30, x12, x03);
    lemma_scale6(x31, x00 * x12 * x33, x00 * x32 * x13, x10 * x02 * x33, x10 * x32 * x03, x30 * x02 * x13, x30 * x12 * x03);
    lemma_reorder4(x31, x00, x12, x33);
    lemma_reorder4(x31, x00, x32, x13);
    lemma_reorder4(x31, x10, x02, x33);
    lemma_reorder4(x31, x10, x32, x03);
    lemma_reorder4(x31, x30, x02, x13);
    lemma_reorder4(x31, x30, x12, x03);
    lemma_expand3(x00, x10, x30, x01, x11, x31, x03, x13, x33);
    lemma_scale6(x02, x00 * x11 * x33, x00 * x31 * x13, x10 * x01 * x33, x10 * x31 * x03, x30 * x01 * x13, x30 * x11 * x03);
    lemma_reorder4(x02, x00, x11, x33);
    lemma_reorder4(x02, x00, x31, x13);
    lemma_reorder4(x02, x10, x01, x33);
    lemma_reorder4(x02, x10, x31, x03);
    lemma_reorder4(x02, x30, x01, x13);
    lemma_reorder4(x02, x30, x11, x03);
    lemma_scale6(x12, x00 * x11 * x33, x00 * x31 * x13, x10 * x01 * x33, x10 * x31 * x03, x30 * x01 * x13, x30 * x11 * x03);
    lemma_reorder4(x12, x00, x11, x33);
    lemma_reorder4(x12, x00, x31, x13);
    lemma_reorder4(x12, x10, x01, x33);
    lemma_reorder4(x12, x10, x31, x03);
    lemma_reorder4(x12, x30, x01, x13);
    lemma_reorder4(x12, x30, x11, x03);
    lemma_scale6(x22, x00 * x11 * x33, x00 * x31 * x13, x10 * x01 * x33, x10 * x31 * x03, x30 * x01 * x13, x30 * x11 * x03);
    lemma_reorder4(x22, x00, x11, x33);
    lemma_reorder4(x22, x00, x31, x13);
    lemma_reorder4(x22, x10, x01, x33);
    lemma_reorder4(x22, x10, x31, x03);
    lemma_reorder4(x22, x30, x01, x13);
    lemma_reorder4(x22, x30, x11, x03);
    lemma_scale6(x32, x00 * x11 * x33, x00 * x31 * x13, x10 * x01 * x33, x10 * x31 * x03, x30 * x01 * x13, x30 * x11 * x03);
    lemma_reorder4(x32, x00, x11, x33);
    lemma_reorder4(x32, x00, x31, x13);
    lemma_reorder4(x32, x10, x01, x33);
    lemma_reorder4(x32, x10, x31, x03);
    lemma_reorder4(x32, x30, x01, x13);
    lemma_reorder4(x32, x30, x11, x03);
    lemma_expand3(x00, x10, x30, x01, x11, x31, x02, x12, x32);
    lemma_scale6(x03, x00 * x11 * x32, x00 * x31 * x12, x10 * x01 * x32, x10 * x31 * x02, x30 * x01 * x12, x30 * x11 * x02);
    lemma_reorder4(x03, x00, x11, x32);
    lemma_reorder4(x03, x00, x31, x12);
    lemma_reorder4(x03, x10, x01, x32);
    lemma_reorder4(x03, x10, x31, x02);
    lemma_reorder4(x03, x30, x01, x12);
    lemma_reorder4(x03, x30, x11, x02);
    lemma_scale6(x13, x00 * x11 * x32, x00 * x31 * x12, x10 * x01 * x32, x10 * x31 * x02, x30 * x01 * x12, x30 * x11 * x02);
    lemma_reorder4(x13, x00, x11, x32);
    lemma_reorder4(x13, x00, x31, x12);
    lemma_reorder4(x13, x10, x01, x32);
    lemma_reorder4(x13, x10, x31, x02);
    lemma_reorder4(x13, x30, x01, x12);
    lemma_reorder4(x13, x30, x11, x02);
    lemma_scale6(x23, x00 * x11 * x32, x00 * x31 * x12, x10 * x01 * x32, x10 * x31 * x02, x30 * x01 * x12, x30 * x11 * x02);
    lemma_reorder4(x23, x00, x11, x32);
    lemma_reorder4(x23, x00, x31, x12);
    lemma_reorder4(x23, x10, x01, x32);
    lemma_reorder4(x23, x10, x31, x02);
    lemma_reorder4(x23, x30, x01, x12);
    lemma_reorder4(x23, x30, x11, x02);
    lemma_scale6(x33, x00 * x11 * x32, x00 * x31 * x12, x10 * x01 * x32, x10 * x31 * x02, x30 * x01 * x12, x30 * x11 * x02);
    lemma_reorder4(x33, x00, x11, x32);
    lemma_reorder4(x33, x00, x31, x12);
    lemma_reorder4(x33, x10, x01, x32);
    lemma_reorder4(x33, x10, x31, x02);
    lemma_reorder4(x33, x30, x01, x12);
    lemma_reorder4(x33, x30, x11, x02);
    lemma_expand3(x01, x11, x21, x02, x12, x22, x03, x13, x23);
    lemma_scale6(x00, x01 * x12 * x23, x01 * x22 * x13, x11 * x02 * x23, x11 * x22 * x03, x21 * x02 * x13, x21 * x12 * x03);
    lemma_reorder4(x00, x01, x12, x23);
    lemma_reorder4(x00, x01, x22, x13);
    lemma_reorder4(x00, x11, x02, x23);
    lemma_reorder4(x00, x11, x22, x03);
    lemma_reorder4(x00, x21, x02, x13);
    lemma_reorder4(x00, x21, x12, x03);
    lemma_scale6(x10, x01 * x12 * x23, x01 * x22 * x13, x11 * x02 * x23, x11 * x22 * x03, x21 * x02 * x13, x21 * x12 * x03);
    lemma_reorder4(x10, x01, x12, x23);
    lemma_reorder4(x10, x01, x22, x13);
    lemma_reorder4(x10, x11, x02, x23);
    lemma_reorder4(x10, x11, x22, x03);
    lemma_reorder4(x10, x21, x02, x13);
    lemma_reorder4(x10, x21, x12, x03);
    lemma_scale6(x20, x01 * x12 * x23, x01 * x22 * x13, x11 * x02 * x23, x11 * x22 * x03, x21 * x02 * x13, x21 * x12 * x03);
    lemma_reorder4(x20, x01, x12, x23);
    lemma_reorder4(x20, x01, x22, x13);
    lemma_reorder4(x20, x11, x02, x23);
    lemma_reorder4(x20, x11, x22, x03);
    lemma_reorder4(x20, x21, x02, x13);
    lemma_reorder4(x20, x21, x12, x03);
    lemma_scale6(x30, x01 * x12 * x23, x01 * x22 * x13, x11 * x02 * x23, x11 * x22 * x03, x21 * x02 * x13, x21 * x12 * x03);
    lemma_reorder4(x30, x01, x12, x23);
    lemma_reorder4(x30, x01, x22, x13);
    lemma_reorder4(x30, x11, x02, x23);
    lemma_reorder4(x30, x11, x22, x03);
    lemma_reorder4(x30, x21, x02, x13);
    lemma_reorder4(x30, x21, x12, x03);
    lemma_expand3(x00, x10, x20, x02, x12, x22, x03, x13, x23);
    lemma_scale6(x01, x00 * x12 * x23, x00 * x22 * x13, x10 * x02 * x23, x10 * x22 * x03, x20 * x02 * x13, x20 * x12 * x03);
    lemma_reorder4(x01, x00, x12, x23);
    lemma_reorder4(x01, x00, x22, x13);
    lemma_reorder4(x01, x10, x02, x23);
    lemma_reorder4(x01, x10, x22, x03);
    lemma_reorder4(x01, x20, x02, x13);
    lemma_reorder4(x01, x20, x12, x03);
    lemma_scale6(x11, x00 * x12 * x23, x00 * x22 * x13, x10 * x02 * x23, x10 * x22 * x03, x20 * x02 * x13, x20 * x12 * x03);
    lemma_reorder4(x11, x00, x12, x23);
    lemma_reorder4(x11, x00, x22, x13);
    lemma_reorder4(x11, x10, x02, x23);
    lemma_reorder4(x11, x10, x22, x03);
    lemma_reorder4(x11, x20, x02, x13);
    lemma_reorder4(x11, x20, x12, x03);
    lemma_scale6(x21, x00 * x12 * x23, x00 * x22 * x13, x10 * x02 * x23, x10 * x22 * x03, x20 * x02 * x13, x20 * x12 * x03);
    lemma_reorder4(x21, x00, x12, x23);
    lemma_reorder4(x21, x00, x22, x13);
    lemma_reorder4(x21, x10, x02, x23);
    lemma_reorder4(x21, x10, x22, x03);
    lemma_reorder4(x21, x20, x02, x13);
    lemma_reorder4(x21, x20, x12, x03);
    lemma_scale6(x31, x00 * x12 * x23, x00 * x22 * x13, x10 * x02 * x23, x10 * x22 * x03, x20 * x02 * x13, x20 * x12 * x03);
    lemma_reorder4(x31, x00, x12, x23);
    lemma_reorder4(x31, x00, x22, x13);
    lemma_reorder4(x31, x10, x02, x23);
    lemma_reorder4(x31, x10, x22, x03);
    lemma_reorder4(x31, x20, x02, x13);
    lemma_reorder4(x31, x20, x12, x03);
    lemma_expand3(x00, x10, x20, x01, x11, x21, x03, x13, x23);
    lemma_scale6(x02, x00 * x11 * x23, x00 * x21 * x13, x10 * x01 * x23, x10 * x21 * x03, x20 * x01 * x13, x20 * x11 * x03);
    lemma_reorder4(x02, x00, x11, x23);
    lemma_reorder4(x02, x00, x21, x13);
    lemma_reorder4(x02, x10, x01, x23);
    lemma_reorder4(x02, x10, x21, x03);
    lemma_reorder4(x02, x20, x01, x13);
    lemma_reorder4(x02, x20, x11, x03);
    lemma_scale6(x12, x00 * x11 * x23, x00 * x21 * x13, x10 * x01 * x23, x10 * x21 * x03, x20 * x01 * x13, x20 * x11 * x03);
    lemma_reorder4(x12, x00, x11, x23);
    lemma_reorder4(x12, x00, x21, x13);
    lemma_reorder4(x12, x10, x01, x23);
    lemma_reorder4(x12, x10, x21, x03);
    lemma_reorder4(x12, x20, x01, x13);
    lemma_reorder4(x12, x20, x11, x03);
    lemma_scale6(x22, x00 * x11 * x23, x00 * x21 * x13, x10 * x01 * x23, x10 * x21 * x03, x20 * x01 * x13, x20 * x11 * x03);
    lemma_reorder4(x22, x00, x11, x23);
    lemma_reorder4(x22, x00, x21, x13);
    lemma_reorder4(x22, x10, x01, x23);
    lemma_reorder4(x22, x10, x21, x03);
    lemma_reorder4(x22, x20, x01, x13);
    lemma_reorder4(x22, x20, x11, x03);
    lemma_scale6(x32, x00 * x11 * x23, x00 * x21 * x13, x10 * x01 * x23, x10 * x21 * x03, x20 * x01 * x13, x20 * x11 * x03);
    lemma_reorder4(x32, x00, x11, x23);
    lemma_reorder4(x32, x00, x21, x13);
    lemma_reorder4(x32, x10, x01, x23);
    lemma_reorder4(x32, x10, x21, x03);
    lemma_reorder4(x32, x20, x01, x13);
    lemma_reorder4(x32, x20, x11, x03);
    lemma_expand3(x00, x10, x20, x01, x11, x21, x02, x12, x22);
    lemma_scale6(x03, x00 * x11 * x22, x00 * x21 * x12, x10 * x01 * x22, x10 * x21 * x02, x20 * x01 * x12, x20 * x11 * x02);
    lemma_reorder4(x03, x00, x11, x22);
    lemma_reorder4(x03, x00, x21, x12);
    lemma_reorder4(x03, x10, x01, x22);
    lemma_reorder4(x03, x10, x21, x02);
    lemma_reorder4(x03, x20, x01, x12);
    lemma_reorder4(x03, x20, x11, x02);
    lemma_scale6(x13, x00 * x11 * x22, x00 * x21 * x12, x10 * x01 * x22, x10 * x21 * x02, x20 * x01 * x12, x20 * x11 * x02);
    lemma_reorder4(x13, x00, x11, x22);
    lemma_reorder4(x13, x00, x21, x12);
    lemma_reorder4(x13, x10, x01, x22);
    lemma_reorder4(x13, x10, x21, x02);
    lemma_reorder4(x13, x20, x01, x12);
    lemma_reorder4(x13, x20, x11, x02);
    lemma_scale6(x23, x00 * x11 * x22, x00 * x21 * x12, x10 * x01 * x22, x10 * x21 * x02, x20 * x01 * x12, x20 * x11 * x02);
    lemma_reorder4(x23, x00, x11, x22);
    lemma_reorder4(x23, x00, x21, x12);
    lemma_reorder4(x23, x10, x01, x22);
    lemma_reorder4(x23, x10, x21, x02);
    lemma_reorder4(x23, x20, x01, x12);
    lemma_reorder4(x23, x20, x11, x02);
    lemma_scale6(x33, x00 * x11 * x22, x00 * x21 * x12, x10 * x01 * x22, x10 * x21 * x02, x20 * x01 * x12, x20 * x11 * x02);
    lemma_reorder4(x33, x00, x11, x22);
    lemma_reorder4(x33, x00, x21, x12);
    lemma_reorder4(x33, x10, x01, x22);
    lemma_reorder4(x33, x10, x21, x02);
    lemma_reorder4(x33, x20, x01, x12);
    lemma_reorder4(x33, x20, x11, x02);
}

/// Multiplication of two integers commutes.
pub proof fn lemma_commute(a: int, b: int)
    ensures
        a * b == b * a,
{
}

/// Multiplying by a negated integer negates the product.
pub proof fn lemma_negate(t: int, d: int)
    ensures
        t * (-d) == -(t * d),
{
    assert(t * (-d) == -(t * d)) by (nonlinear_arith);
}

} // verus!
