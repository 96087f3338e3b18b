//! Square matrices of two, three and four dimensions.
//!
//! Field `cIJ` is the entry at position `(I, J)`; [`Matrix4x4::field`] and its
//! siblings read a field by its two indices. A vector is multiplied on the left
//! of a matrix, so the fields `c0J`, `c1J`, ... with a common `J` form the `J`-th
//! row, and a translation sits in the fields `c03`, `c13`, `c23`.
use vstd::prelude::*;
use crate::scalar::{Scalar, total, exact, sadd, ssub, smul, sdiv, sneg, lit, one, zero};
use crate::vector::{Vector3, cross3};

verus! {

/// The index that position `a` of a submatrix has in the matrix that
/// index `k` was deleted from.
pub open spec fn skip(k: int, a: int) -> int {
    if a < k {
        a
    } else {
        a + 1
    }
}

/// `v`, negated where `i + j` is odd: the checkerboard of cofactor signs.
pub open spec fn checker<T: Scalar>(i: int, j: int, v: T) -> T {
    if (i + j) % 2 == 0 {
        v
    } else {
        sneg(v)
    }
}

/// The 2 x 2 matrix under a shorter name.
pub type Matrix2<T> = Matrix2x2<T>;

/// The 3 x 3 matrix under a shorter name.
pub type Matrix3<T> = Matrix3x3<T>;

/// The 4 x 4 matrix under a shorter name.
pub type Matrix4<T> = Matrix4x4<T>;

/// A 2 x 2 matrix.
#[derive(Clone, Copy, Debug)]
pub struct Matrix2x2<T> {
    pub c00: T, pub c10: T,
    pub c01: T, pub c11: T,
}

impl<T> Matrix2x2<T> {
    /// The field `cIJ` for `I == i` and `J == j`.
    pub open spec fn field(self, i: int, j: int) -> T {
        if i == 0 {
            if j == 0 {
                self.c00
            } else {
                self.c01
            }
        } else {
            if j == 0 {
                self.c10
            } else {
                self.c11
            }
        }
    }
}

/// The 2 x 2 matrix whose field at `(i, j)` is `g(i, j)`.
pub open spec fn build2<T>(g: spec_fn(int, int) -> T) -> Matrix2x2<T> {
    Matrix2x2 {
        c00: g(0, 0), c10: g(1, 0),
        c01: g(0, 1), c11: g(1, 1),
    }
}

/// A 3 x 3 matrix.
#[derive(Clone, Copy, Debug)]
pub struct Matrix3x3<T> {
    pub c00: T, pub c10: T, pub c20: T,
    pub c01: T, pub c11: T, pub c21: T,
    pub c02: T, pub c12: T, pub c22: T,
}

impl<T> Matrix3x3<T> {
    /// The field `cIJ` for `I == i` and `J == j`.
    pub open spec fn field(self, i: int, j: int) -> T {
        if i == 0 {
            if j == 0 {
                self.c00
            } else if j == 1 {
                self.c01
            } else {
                self.c02
            }
        } else if i == 1 {
            if j == 0 {
                self.c10
            } else if j == 1 {
                self.c11
            } else {
                self.c12
            }
        } else {
            if j == 0 {
                self.c20
            } else if j == 1 {
                self.c21
            } else {
                self.c22
            }
        }
    }
}

/// The 3 x 3 matrix whose field at `(i, j)` is `g(i, j)`.
pub open spec fn build3<T>(g: spec_fn(int, int) -> T) -> Matrix3x3<T> {
    Matrix3x3 {
        c00: g(0, 0), c10: g(1, 0), c20: g(2, 0),
        c01: g(0, 1), c11: g(1, 1), c21: g(2, 1),
        c02: g(0, 2), c12: g(1, 2), c22: g(2, 2),
    }
}

/// A 4 x 4 matrix.
#[derive(Clone, Copy, Debug)]
pub struct Matrix4x4<T> {
    pub c00: T, pub c10: T, pub c20: T, pub c30: T,
    pub c01: T, pub c11: T, pub c21: T, pub c31: T,
    pub c02: T, pub c12: T, pub c22: T, pub c32: T,
    pub c03: T, pub c13: T, pub c23: T, pub c33: T,
}

impl<T> Matrix4x4<T> {
    /// The field `cIJ` for `I == i` and `J == j`.
    pub open spec fn field(self, i: int, j: int) -> T {
        if i == 0 {
            if j == 0 {
                self.c00
            } else if j == 1 {
                self.c01
            } else if j == 2 {
                self.c02
            } else {
                self.c03
            }
        } else if i == 1 {
            if j == 0 {
                self.c10
            } else if j == 1 {
                self.c11
            } else if j == 2 {
                self.c12
            } else {
                self.c13
            }
        } else if i == 2 {
            if j == 0 {
                self.c20
            } else if j == 1 {
                self.c21
            } else if j == 2 {
                self.c22
            } else {
                self.c23
            }
        } else {
            if j == 0 {
                self.c30
            } else if j == 1 {
                self.c31
            } else if j == 2 {
                self.c32
            } else {
                self.c33
            }
        }
    }
}

/// The 4 x 4 matrix whose field at `(i, j)` is `g(i, j)`.
pub open spec fn build4<T>(g: spec_fn(int, int) -> T) -> Matrix4x4<T> {
    Matrix4x4 {
        c00: g(0, 0), c10: g(1, 0), c20: g(2, 0), c30: g(3, 0),
        c01: g(0, 1), c11: g(1, 1), c21: g(2, 1), c31: g(3, 1),
        c02: g(0, 2), c12: g(1, 2), c22: g(2, 2), c32: g(3, 2),
        c03: g(0, 3), c13: g(1, 3), c23: g(2, 3), c33: g(3, 3),
    }
}

/// The 2 x 2 identity.
pub open spec fn identity2<T: Scalar>() -> Matrix2x2<T> {
    build2(|i: int, j: int| if i == j { lit::<T>(1) } else { lit::<T>(0) })
}

/// The field-wise sum.
pub open spec fn plus2<T: Scalar>(a: Matrix2x2<T>, b: Matrix2x2<T>) -> Matrix2x2<T> {
    build2(|i: int, j: int| sadd(a.field(i, j), b.field(i, j)))
}

/// The field-wise difference.
pub open spec fn minus2<T: Scalar>(a: Matrix2x2<T>, b: Matrix2x2<T>) -> Matrix2x2<T> {
    build2(|i: int, j: int| ssub(a.field(i, j), b.field(i, j)))
}

/// Every field multiplied by `s`.
pub open spec fn scaled2<T: Scalar>(m: Matrix2x2<T>, s: T) -> Matrix2x2<T> {
    build2(|i: int, j: int| smul(m.field(i, j), s))
}

/// The matrix product: the field at `(i, j)` sums `a.field(k, j) * b.field(i, k)`
/// over `k` in increasing order.
pub open spec fn product2<T: Scalar>(a: Matrix2x2<T>, b: Matrix2x2<T>) -> Matrix2x2<T> {
    build2(
        |i: int, j: int|
            sadd(smul(a.field(0, j), b.field(i, 0)), smul(a.field(1, j), b.field(i, 1))),
    )
}

/// The fields mirrored across the diagonal.
pub open spec fn transpose2<T>(m: Matrix2x2<T>) -> Matrix2x2<T> {
    build2(|i: int, j: int| m.field(j, i))
}

/// `c00 * c11 - c10 * c01`.
pub open spec fn det2<T: Scalar>(m: Matrix2x2<T>) -> T {
    ssub(smul(m.c00, m.c11), smul(m.c10, m.c01))
}

impl<T: Scalar> Matrix2x2<T> {
    /// The multiplicative identity.
    pub fn identity() -> (r: Self)
        ensures
            exact::<T>() ==> r == identity2::<T>(),
    {
        let o = one::<T>();
        let z = zero::<T>();
        Matrix2x2 {
            c00: o, c10: z,
            c01: z, c11: o,
        }
    }

    /// The fields mirrored across the diagonal.
    pub fn transpose(&self) -> (r: Self)
        ensures
            r == transpose2(*self),
    {
        Matrix2x2 {
            c00: self.c00, c10: self.c01,
            c01: self.c10, c11: self.c11,
        }
    }

    /// `c00 * c11 - c10 * c01`.
    pub fn determinant(&self) -> (r: T)
        requires
            total::<T>(),
        ensures
            exact::<T>() ==> r == det2(*self),
    {
        self.c00 * self.c11 - self.c10 * self.c01
    }

}

impl<T: Scalar> core::ops::Add for Matrix2x2<T> {
    type Output = Matrix2x2<T>;

    fn add(self, rhs: Matrix2x2<T>) -> (r: Matrix2x2<T>)
        ensures
            exact::<T>() ==> r == plus2(self, rhs),
    {
        Matrix2x2 {
            c00: self.c00 + rhs.c00, c10: self.c10 + rhs.c10,
            c01: self.c01 + rhs.c01, c11: self.c11 + rhs.c11,
        }
    }
}

impl<T: Scalar> vstd::std_specs::ops::AddSpecImpl for Matrix2x2<T> {
    open spec fn obeys_add_spec() -> bool {
        exact::<T>()
    }

    open spec fn add_req(self, rhs: Matrix2x2<T>) -> bool {
        total::<T>()
    }

    open spec fn add_spec(self, rhs: Matrix2x2<T>) -> Matrix2x2<T> {
        plus2(self, rhs)
    }
}

impl<T: Scalar> core::ops::Sub for Matrix2x2<T> {
    type Output = Matrix2x2<T>;

    fn sub(self, rhs: Matrix2x2<T>) -> (r: Matrix2x2<T>)
        ensures
            exact::<T>() ==> r == minus2(self, rhs),
    {
        Matrix2x2 {
            c00: self.c00 - rhs.c00, c10: self.c10 - rhs.c10,
            c01: self.c01 - rhs.c01, c11: self.c11 - rhs.c11,
        }
    }
}

impl<T: Scalar> vstd::std_specs::ops::SubSpecImpl for Matrix2x2<T> {
    open spec fn obeys_sub_spec() -> bool {
        exact::<T>()
    }

    open spec fn sub_req(self, rhs: Matrix2x2<T>) -> bool {
        total::<T>()
    }

    open spec fn sub_spec(self, rhs: Matrix2x2<T>) -> Matrix2x2<T> {
        minus2(self, rhs)
    }
}

impl<T: Scalar> core::ops::Mul<T> for Matrix2x2<T> {
    type Output = Matrix2x2<T>;

    fn mul(self, rhs: T) -> (r: Matrix2x2<T>)
        ensures
            exact::<T>() ==> r == scaled2(self, rhs),
    {
        Matrix2x2 {
            c00: self.c00 * rhs, c10: self.c10 * rhs,
            c01: self.c01 * rhs, c11: self.c11 * rhs,
        }
    }
}

impl<T: Scalar> vstd::std_specs::ops::MulSpecImpl<T> for Matrix2x2<T> {
    open spec fn obeys_mul_spec() -> bool {
        exact::<T>()
    }

    open spec fn mul_req(self, rhs: T) -> bool {
        total::<T>()
    }

    open spec fn mul_spec(self, rhs: T) -> Matrix2x2<T> {
        scaled2(self, rhs)
    }
}

impl<T: Scalar> core::ops::Mul<Matrix2x2<T>> for Matrix2x2<T> {
    type Output = Matrix2x2<T>;

    fn mul(self, rhs: Matrix2x2<T>) -> (r: Matrix2x2<T>)
        ensures
            exact::<T>() ==> r == product2(self, rhs),
    {
        Matrix2x2 {
            c00: self.c00 * rhs.c00 + self.c10 * rhs.c01, c10: self.c00 * rhs.c10 + self.c10 * rhs.c11,
            c01: self.c01 * rhs.c00 + self.c11 * rhs.c01, c11: self.c01 * rhs.c10 + self.c11 * rhs.c11,
        }
    }
}

impl<T: Scalar> vstd::std_specs::ops::MulSpecImpl<Matrix2x2<T>> for Matrix2x2<T> {
    open spec fn obeys_mul_spec() -> bool {
        exact::<T>()
    }

    open spec fn mul_req(self, rhs: Matrix2x2<T>) -> bool {
        total::<T>()
    }

    open spec fn mul_spec(self, rhs: Matrix2x2<T>) -> Matrix2x2<T> {
        product2(self, rhs)
    }
}

/// The 3 x 3 identity.
pub open spec fn identity3<T: Scalar>() -> Matrix3x3<T> {
    build3(|i: int, j: int| if i == j { lit::<T>(1) } else { lit::<T>(0) })
}

/// The field-wise sum.
pub open spec fn plus3<T: Scalar>(a: Matrix3x3<T>, b: Matrix3x3<T>) -> Matrix3x3<T> {
    build3(|i: int, j: int| sadd(a.field(i, j), b.field(i, j)))
}

/// The field-wise difference.
pub open spec fn minus3<T: Scalar>(a: Matrix3x3<T>, b: Matrix3x3<T>) -> Matrix3x3<T> {
    build3(|i: int, j: int| ssub(a.field(i, j), b.field(i, j)))
}

/// Every field multiplied by `s`.
pub open spec fn scaled3<T: Scalar>(m: Matrix3x3<T>, s: T) -> Matrix3x3<T> {
    build3(|i: int, j: int| smul(m.field(i, j), s))
}

/// The matrix product: the field at `(i, j)` sums `a.field(k, j) * b.field(i, k)`
/// over `k` in increasing order.
pub open spec fn product3<T: Scalar>(a: Matrix3x3<T>, b: Matrix3x3<T>) -> Matrix3x3<T> {
    build3(
        |i: int, j: int|
            sadd(sadd(smul(a.field(0, j), b.field(i, 0)), smul(a.field(1, j), b.field(i, 1))), smul(a.field(2, j), b.field(i, 2))),
    )
}

/// The fields mirrored across the diagonal.
pub open spec fn transpose3<T>(m: Matrix3x3<T>) -> Matrix3x3<T> {
    build3(|i: int, j: int| m.field(j, i))
}

/// The matrix left when the fields with first index `i` and those with
/// second index `j` are deleted.
pub open spec fn submatrix2<T>(m: Matrix3x3<T>, i: int, j: int) -> Matrix2x2<T> {
    build2(|a: int, b: int| m.field(skip(i, a), skip(j, b)))
}

/// At each position, the determinant of the submatrix that deletes it.
pub open spec fn minors3<T: Scalar>(m: Matrix3x3<T>) -> Matrix3x3<T> {
    build3(|i: int, j: int| det2(submatrix2(m, i, j)))
}

/// The fields with the checkerboard of signs applied.
pub open spec fn cofactors3<T: Scalar>(m: Matrix3x3<T>) -> Matrix3x3<T> {
    build3(|i: int, j: int| checker(i, j, m.field(i, j)))
}

/// Expansion along the fields `c00`, `c10`, ...: each times its cofactor,
/// summed in that order.
pub open spec fn det3<T: Scalar>(m: Matrix3x3<T>) -> T {
    let c = cofactors3(minors3(m));
    sadd(sadd(smul(m.c00, c.c00), smul(m.c10, c.c10)), smul(m.c20, c.c20))
}

/// The adjugate (the transposed cofactors of the minors) scaled by one over the
/// determinant.
pub open spec fn inverse3<T: Scalar>(m: Matrix3x3<T>) -> Matrix3x3<T> {
    scaled3(transpose3(cofactors3(minors3(m))), sdiv(lit::<T>(1), det3(m)))
}

impl<T: Scalar> Matrix3x3<T> {
    /// The multiplicative identity.
    pub fn identity() -> (r: Self)
        ensures
            exact::<T>() ==> r == identity3::<T>(),
    {
        let o = one::<T>();
        let z = zero::<T>();
        Matrix3x3 {
            c00: o, c10: z, c20: z,
            c01: z, c11: o, c21: z,
            c02: z, c12: z, c22: o,
        }
    }

    /// The fields mirrored across the diagonal.
    pub fn transpose(&self) -> (r: Self)
        ensures
            r == transpose3(*self),
    {
        Matrix3x3 {
            c00: self.c00, c10: self.c01, c20: self.c02,
            c01: self.c10, c11: self.c11, c21: self.c12,
            c02: self.c20, c12: self.c21, c22: self.c22,
        }
    }

    /// At each position, the determinant of the submatrix that deletes that
    /// position's first and second index.
    pub fn matrix_of_minors(&self) -> (r: Self)
        requires
            total::<T>(),
        ensures
            exact::<T>() ==> r == minors3(*self),
    {
        let c00 = Matrix2x2 {
            c00: self.c11, c10: self.c21,
            c01: self.c12, c11: self.c22,
        }.determinant();
        let c10 = Matrix2x2 {
            c00: self.c01, c10: self.c21,
            c01: self.c02, c11: self.c22,
        }.determinant();
        let c20 = Matrix2x2 {
            c00: self.c01, c10: self.c11,
            c01: self.c02, c11: self.c12,
        }.determinant();
        let c01 = Matrix2x2 {
            c00: self.c10, c10: self.c20,
            c01: self.c12, c11: self.c22,
        }.determinant();
        let c11 = Matrix2x2 {
            c00: self.c00, c10: self.c20,
            c01: self.c02, c11: self.c22,
        }.determinant();
        let c21 = Matrix2x2 {
            c00: self.c00, c10: self.c10,
            c01: self.c02, c11: self.c12,
        }.determinant();
        let c02 = Matrix2x2 {
            c00: self.c10, c10: self.c20,
            c01: self.c11, c11: self.c21,
        }.determinant();
        let c12 = Matrix2x2 {
            c00: self.c00, c10: self.c20,
            c01: self.c01, c11: self.c21,
        }.determinant();
        let c22 = Matrix2x2 {
            c00: self.c00, c10: self.c10,
            c01: self.c01, c11: self.c11,
        }.determinant();
        Matrix3x3 {
            c00: c00, c10: c10, c20: c20,
            c01: c01, c11: c11, c21: c21,
            c02: c02, c12: c12, c22: c22,
        }
    }

    /// The fields with the checkerboard of signs applied: negated where the
    /// indices sum to an odd number.
    pub fn matrix_of_cofactors(&self) -> (r: Self)
        requires
            total::<T>(),
        ensures
            exact::<T>() ==> r == cofactors3(*self),
    {
        Matrix3x3 {
            c00: self.c00, c10: T::neg(self.c10), c20: self.c20,
            c01: T::neg(self.c01), c11: self.c11, c21: T::neg(self.c21),
            c02: self.c02, c12: T::neg(self.c12), c22: self.c22,
        }
    }

    /// Cofactor expansion along the fields `c00`, `c10`, ...
    pub fn determinant(&self) -> (r: T)
        requires
            total::<T>(),
        ensures
            exact::<T>() ==> r == det3(*self),
    {
        let minors = self.matrix_of_minors();
        let cofactors = minors.matrix_of_cofactors();
        self.c00 * cofactors.c00 + self.c10 * cofactors.c10 + self.c20 * cofactors.c20
    }

    /// The adjugate scaled by one over the determinant. A singular matrix is
    /// not rejected: the division by a zero determinant is carried out.
    pub fn inverse(&self) -> (r: Self)
        requires
            total::<T>(),
        ensures
            exact::<T>() ==> r == inverse3(*self),
    {
        let minors = self.matrix_of_minors();
        let cofactors = minors.matrix_of_cofactors();
        let adjugate = cofactors.transpose();
        let determinant = self.determinant();
        adjugate * (one::<T>() / determinant)
    }

}

impl<T: Scalar> core::ops::Add for Matrix3x3<T> {
    type Output = Matrix3x3<T>;

    fn add(self, rhs: Matrix3x3<T>) -> (r: Matrix3x3<T>)
        ensures
            exact::<T>() ==> r == plus3(self, rhs),
    {
        Matrix3x3 {
            c00: self.c00 + rhs.c00, c10: self.c10 + rhs.c10, c20: self.c20 + rhs.c20,
            c01: self.c01 + rhs.c01, c11: self.c11 + rhs.c11, c21: self.c21 + rhs.c21,
            c02: self.c02 + rhs.c02, c12: self.c12 + rhs.c12, c22: self.c22 + rhs.c22,
        }
    }
}

impl<T: Scalar> vstd::std_specs::ops::AddSpecImpl for Matrix3x3<T> {
    open spec fn obeys_add_spec() -> bool {
        exact::<T>()
    }

    open spec fn add_req(self, rhs: Matrix3x3<T>) -> bool {
        total::<T>()
    }

    open spec fn add_spec(self, rhs: Matrix3x3<T>) -> Matrix3x3<T> {
        plus3(self, rhs)
    }
}

impl<T: Scalar> core::ops::Sub for Matrix3x3<T> {
    type Output = Matrix3x3<T>;

    fn sub(self, rhs: Matrix3x3<T>) -> (r: Matrix3x3<T>)
        ensures
            exact::<T>() ==> r == minus3(self, rhs),
    {
        Matrix3x3 {
            c00: self.c00 - rhs.c00, c10: self.c10 - rhs.c10, c20: self.c20 - rhs.c20,
            c01: self.c01 - rhs.c01, c11: self.c11 - rhs.c11, c21: self.c21 - rhs.c21,
            c02: self.c02 - rhs.c02, c12: self.c12 - rhs.c12, c22: self.c22 - rhs.c22,
        }
    }
}

impl<T: Scalar> vstd::std_specs::ops::SubSpecImpl for Matrix3x3<T> {
    open spec fn obeys_sub_spec() -> bool {
        exact::<T>()
    }

    open spec fn sub_req(self, rhs: Matrix3x3<T>) -> bool {
        total::<T>()
    }

    open spec fn sub_spec(self, rhs: Matrix3x3<T>) -> Matrix3x3<T> {
        minus3(self, rhs)
    }
}

impl<T: Scalar> core::ops::Mul<T> for Matrix3x3<T> {
    type Output = Matrix3x3<T>;

    fn mul(self, rhs: T) -> (r: Matrix3x3<T>)
        ensures
            exact::<T>() ==> r == scaled3(self, rhs),
    {
        Matrix3x3 {
            c00: self.c00 * rhs, c10: self.c10 * rhs, c20: self.c20 * rhs,
            c01: self.c01 * rhs, c11: self.c11 * rhs, c21: self.c21 * rhs,
            c02: self.c02 * rhs, c12: self.c12 * rhs, c22: self.c22 * rhs,
        }
    }
}

impl<T: Scalar> vstd::std_specs::ops::MulSpecImpl<T> for Matrix3x3<T> {
    open spec fn obeys_mul_spec() -> bool {
        exact::<T>()
    }

    open spec fn mul_req(self, rhs: T) -> bool {
        total::<T>()
    }

    open spec fn mul_spec(self, rhs: T) -> Matrix3x3<T> {
        scaled3(self, rhs)
    }
}

impl<T: Scalar> core::ops::Mul<Matrix3x3<T>> for Matrix3x3<T> {
    type Output = Matrix3x3<T>;

    fn mul(self, rhs: Matrix3x3<T>) -> (r: Matrix3x3<T>)
        ensures
            exact::<T>() ==> r == product3(self, rhs),
    {
        Matrix3x3 {
            c00: self.c00 * rhs.c00 + self.c10 * rhs.c01 + self.c20 * rhs.c02, c10: self.c00 * rhs.c10 + self.c10 * rhs.c11 + self.c20 * rhs.c12, c20: self.c00 * rhs.c20 + self.c10 * rhs.c21 + self.c20 * rhs.c22,
            c01: self.c01 * rhs.c00 + self.c11 * rhs.c01 + self.c21 * rhs.c02, c11: self.c01 * rhs.c10 + self.c11 * rhs.c11 + self.c21 * rhs.c12, c21: self.c01 * rhs.c20 + self.c11 * rhs.c21 + self.c21 * rhs.c22,
            c02: self.c02 * rhs.c00 + self.c12 * rhs.c01 + self.c22 * rhs.c02, c12: self.c02 * rhs.c10 + self.c12 * rhs.c11 + self.c22 * rhs.c12, c22: self.c02 * rhs.c20 + self.c12 * rhs.c21 + self.c22 * rhs.c22,
        }
    }
}

impl<T: Scalar> vstd::std_specs::ops::MulSpecImpl<Matrix3x3<T>> for Matrix3x3<T> {
    open spec fn obeys_mul_spec() -> bool {
        exact::<T>()
    }

    open spec fn mul_req(self, rhs: Matrix3x3<T>) -> bool {
        total::<T>()
    }

    open spec fn mul_spec(self, rhs: Matrix3x3<T>) -> Matrix3x3<T> {
        product3(self, rhs)
    }
}

/// The 4 x 4 identity.
pub open spec fn identity4<T: Scalar>() -> Matrix4x4<T> {
    build4(|i: int, j: int| if i == j { lit::<T>(1) } else { lit::<T>(0) })
}

/// The field-wise sum.
pub open spec fn plus4<T: Scalar>(a: Matrix4x4<T>, b: Matrix4x4<T>) -> Matrix4x4<T> {
    build4(|i: int, j: int| sadd(a.field(i, j), b.field(i, j)))
}

/// The field-wise difference.
pub open spec fn minus4<T: Scalar>(a: Matrix4x4<T>, b: Matrix4x4<T>) -> Matrix4x4<T> {
    build4(|i: int, j: int| ssub(a.field(i, j), b.field(i, j)))
}

/// Every field multiplied by `s`.
pub open spec fn scaled4<T: Scalar>(m: Matrix4x4<T>, s: T) -> Matrix4x4<T> {
    build4(|i: int, j: int| smul(m.field(i, j), s))
}

/// The matrix product: the field at `(i, j)` sums `a.field(k, j) * b.field(i, k)`
/// over `k` in increasing order.
pub open spec fn product4<T: Scalar>(a: Matrix4x4<T>, b: Matrix4x4<T>) -> Matrix4x4<T> {
    build4(
        |i: int, j: int|
            sadd(sadd(sadd(smul(a.field(0, j), b.field(i, 0)), smul(a.field(1, j), b.field(i, 1))), smul(a.field(2, j), b.field(i, 2))), smul(a.field(3, j), b.field(i, 3))),
    )
}

/// The fields mirrored across the diagonal.
pub open spec fn transpose4<T>(m: Matrix4x4<T>) -> Matrix4x4<T> {
    build4(|i: int, j: int| m.field(j, i))
}

/// The matrix left when the fields with first index `i` and those with
/// second index `j` are deleted.
pub open spec fn submatrix3<T>(m: Matrix4x4<T>, i: int, j: int) -> Matrix3x3<T> {
    build3(|a: int, b: int| m.field(skip(i, a), skip(j, b)))
}

/// At each position, the determinant of the submatrix that deletes it.
pub open spec fn minors4<T: Scalar>(m: Matrix4x4<T>) -> Matrix4x4<T> {
    build4(|i: int, j: int| det3(submatrix3(m, i, j)))
}

/// The fields with the checkerboard of signs applied.
pub open spec fn cofactors4<T: Scalar>(m: Matrix4x4<T>) -> Matrix4x4<T> {
    build4(|i: int, j: int| checker(i, j, m.field(i, j)))
}

/// Expansion along the fields `c00`, `c10`, ...: each times its cofactor,
/// summed in that order.
pub open spec fn det4<T: Scalar>(m: Matrix4x4<T>) -> T {
    let c = cofactors4(minors4(m));
    sadd(sadd(sadd(smul(m.c00, c.c00), smul(m.c10, c.c10)), smul(m.c20, c.c20)), smul(m.c30, c.c30))
}

/// The adjugate (the transposed cofactors of the minors) scaled by one over the
/// determinant.
pub open spec fn inverse4<T: Scalar>(m: Matrix4x4<T>) -> Matrix4x4<T> {
    scaled4(transpose4(cofactors4(minors4(m))), sdiv(lit::<T>(1), det4(m)))
}

impl<T: Scalar> Matrix4x4<T> {
    /// The multiplicative identity.
    pub fn identity() -> (r: Self)
        ensures
            exact::<T>() ==> r == identity4::<T>(),
    {
        let o = one::<T>();
        let z = zero::<T>();
        Matrix4x4 {
            c00: o, c10: z, c20: z, c30: z,
            c01: z, c11: o, c21: z, c31: z,
            c02: z, c12: z, c22: o, c32: z,
            c03: z, c13: z, c23: z, c33: o,
        }
    }

    /// The fields mirrored across the diagonal.
    pub fn transpose(&self) -> (r: Self)
        ensures
            r == transpose4(*self),
    {
        Matrix4x4 {
            c00: self.c00, c10: self.c01, c20: self.c02, c30: self.c03,
            c01: self.c10, c11: self.c11, c21: self.c12, c31: self.c13,
            c02: self.c20, c12: self.c21, c22: self.c22, c32: self.c23,
            c03: self.c30, c13: self.c31, c23: self.c32, c33: self.c33,
        }
    }

    /// At each position, the determinant of the submatrix that deletes that
    /// position's first and second index.
    pub fn matrix_of_minors(&self) -> (r: Self)
        requires
            total::<T>(),
        ensures
            exact::<T>() ==> r == minors4(*self),
    {
        let c00 = Matrix3x3 {
            c00: self.c11, c10: self.c21, c20: self.c31,
            c01: self.c12, c11: self.c22, c21: self.c32,
            c02: self.c13, c12: self.c23, c22: self.c33,
        }.determinant();
        let c10 = Matrix3x3 {
            c00: self.c01, c10: self.c21, c20: self.c31,
            c01: self.c02, c11: self.c22, c21: self.c32,
            c02: self.c03, c12: self.c23, c22: self.c33,
        }.determinant();
        let c20 = Matrix3x3 {
            c00: self.c01, c10: self.c11, c20: self.c31,
            c01: self.c02, c11: self.c12, c21: self.c32,
            c02: self.c03, c12: self.c13, c22: self.c33,
        }.determinant();
        let c30 = Matrix3x3 {
            c00: self.c01, c10: self.c11, c20: self.c21,
            c01: self.c02, c11: self.c12, c21: self.c22,
            c02: self.c03, c12: self.c13, c22: self.c23,
        }.determinant();
        let c01 = Matrix3x3 {
            c00: self.c10, c10: self.c20, c20: self.c30,
            c01: self.c12, c11: self.c22, c21: self.c32,
            c02: self.c13, c12: self.c23, c22: self.c33,
        }.determinant();
        let c11 = Matrix3x3 {
            c00: self.c00, c10: self.c20, c20: self.c30,
            c01: self.c02, c11: self.c22, c21: self.c32,
            c02: self.c03, c12: self.c23, c22: self.c33,
        }.determinant();
        let c21 = Matrix3x3 {
            c00: self.c00, c10: self.c10, c20: self.c30,
            c01: self.c02, c11: self.c12, c21: self.c32,
            c02: self.c03, c12: self.c13, c22: self.c33,
        }.determinant();
        let c31 = Matrix3x3 {
            c00: self.c00, c10: self.c10, c20: self.c20,
            c01: self.c02, c11: self.c12, c21: self.c22,
            c02: self.c03, c12: self.c13, c22: self.c23,
        }.determinant();
        let c02 = Matrix3x3 {
            c00: self.c10, c10: self.c20, c20: self.c30,
            c01: self.c11, c11: self.c21, c21: self.c31,
            c02: self.c13, c12: self.c23, c22: self.c33,
        }.determinant();
        let c12 = Matrix3x3 {
            c00: self.c00, c10: self.c20, c20: self.c30,
            c01: self.c01, c11: self.c21, c21: self.c31,
            c02: self.c03, c12: self.c23, c22: self.c33,
        }.determinant();
        let c22 = Matrix3x3 {
            c00: self.c00, c10: self.c10, c20: self.c30,
            c01: self.c01, c11: self.c11, c21: self.c31,
            c02: self.c03, c12: self.c13, c22: self.c33,
        }.determinant();
        let c32 = Matrix3x3 {
            c00: self.c00, c10: self.c10, c20: self.c20,
            c01: self.c01, c11: self.c11, c21: self.c21,
            c02: self.c03, c12: self.c13, c22: self.c23,
        }.determinant();
        let c03 = Matrix3x3 {
            c00: self.c10, c10: self.c20, c20: self.c30,
            c01: self.c11, c11: self.c21, c21: self.c31,
            c02: self.c12, c12: self.c22, c22: self.c32,
        }.determinant();
        let c13 = Matrix3x3 {
            c00: self.c00, c10: self.c20, c20: self.c30,
            c01: self.c01, c11: self.c21, c21: self.c31,
            c02: self.c02, c12: self.c22, c22: self.c32,
        }.determinant();
        let c23 = Matrix3x3 {
            c00: self.c00, c10: self.c10, c20: self.c30,
            c01: self.c01, c11: self.c11, c21: self.c31,
            c02: self.c02, c12: self.c12, c22: self.c32,
        }.determinant();
        let c33 = Matrix3x3 {
            c00: self.c00, c10: self.c10, c20: self.c20,
            c01: self.c01, c11: self.c11, c21: self.c21,
            c02: self.c02, c12: self.c12, c22: self.c22,
        }.determinant();
        Matrix4x4 {
            c00: c00, c10: c10, c20: c20, c30: c30,
            c01: c01, c11: c11, c21: c21, c31: c31,
            c02: c02, c12: c12, c22: c22, c32: c32,
            c03: c03, c13: c13, c23: c23, c33: c33,
        }
    }

    /// The fields with the checkerboard of signs applied: negated where the
    /// indices sum to an odd number.
    pub fn matrix_of_cofactors(&self) -> (r: Self)
        requires
            total::<T>(),
        ensures
            exact::<T>() ==> r == cofactors4(*self),
    {
        Matrix4x4 {
            c00: self.c00, c10: T::neg(self.c10), c20: self.c20, c30: T::neg(self.c30),
            c01: T::neg(self.c01), c11: self.c11, c21: T::neg(self.c21), c31: self.c31,
            c02: self.c02, c12: T::neg(self.c12), c22: self.c22, c32: T::neg(self.c32),
            c03: T::neg(self.c03), c13: self.c13, c23: T::neg(self.c23), c33: self.c33,
        }
    }

    /// Cofactor expansion along the fields `c00`, `c10`, ...
    pub fn determinant(&self) -> (r: T)
        requires
            total::<T>(),
        ensures
            exact::<T>() ==> r == det4(*self),
    {
        let minors = self.matrix_of_minors();
        let cofactors = minors.matrix_of_cofactors();
        self.c00 * cofactors.c00 + self.c10 * cofactors.c10 + self.c20 * cofactors.c20 + self.c30 * cofactors.c30
    }

    /// The adjugate scaled by one over the determinant. A singular matrix is
    /// not rejected: the division by a zero determinant is carried out.
    pub fn inverse(&self) -> (r: Self)
        requires
            total::<T>(),
        ensures
            exact::<T>() ==> r == inverse4(*self),
    {
        let minors = self.matrix_of_minors();
        let cofactors = minors.matrix_of_cofactors();
        let adjugate = cofactors.transpose();
        let determinant = self.determinant();
        adjugate * (one::<T>() / determinant)
    }

}

impl<T: Scalar> core::ops::Add for Matrix4x4<T> {
    type Output = Matrix4x4<T>;

    fn add(self, rhs: Matrix4x4<T>) -> (r: Matrix4x4<T>)
        ensures
            exact::<T>() ==> r == plus4(self, rhs),
    {
        Matrix4x4 {
            c00: self.c00 + rhs.c00, c10: self.c10 + rhs.c10, c20: self.c20 + rhs.c20, c30: self.c30 + rhs.c30,
            c01: self.c01 + rhs.c01, c11: self.c11 + rhs.c11, c21: self.c21 + rhs.c21, c31: self.c31 + rhs.c31,
            c02: self.c02 + rhs.c02, c12: self.c12 + rhs.c12, c22: self.c22 + rhs.c22, c32: self.c32 + rhs.c32,
            c03: self.c03 + rhs.c03, c13: self.c13 + rhs.c13, c23: self.c23 + rhs.c23, c33: self.c33 + rhs.c33,
        }
    }
}

impl<T: Scalar> vstd::std_specs::ops::AddSpecImpl for Matrix4x4<T> {
    open spec fn obeys_add_spec() -> bool {
        exact::<T>()
    }

    open spec fn add_req(self, rhs: Matrix4x4<T>) -> bool {
        total::<T>()
    }

    open spec fn add_spec(self, rhs: Matrix4x4<T>) -> Matrix4x4<T> {
        plus4(self, rhs)
    }
}

impl<T: Scalar> core::ops::Sub for Matrix4x4<T> {
    type Output = Matrix4x4<T>;

    fn sub(self, rhs: Matrix4x4<T>) -> (r: Matrix4x4<T>)
        ensures
            exact::<T>() ==> r == minus4(self, rhs),
    {
        Matrix4x4 {
            c00: self.c00 - rhs.c00, c10: self.c10 - rhs.c10, c20: self.c20 - rhs.c20, c30: self.c30 - rhs.c30,
            c01: self.c01 - rhs.c01, c11: self.c11 - rhs.c11, c21: self.c21 - rhs.c21, c31: self.c31 - rhs.c31,
            c02: self.c02 - rhs.c02, c12: self.c12 - rhs.c12, c22: self.c22 - rhs.c22, c32: self.c32 - rhs.c32,
            c03: self.c03 - rhs.c03, c13: self.c13 - rhs.c13, c23: self.c23 - rhs.c23, c33: self.c33 - rhs.c33,
        }
    }
}

impl<T: Scalar> vstd::std_specs::ops::SubSpecImpl for Matrix4x4<T> {
    open spec fn obeys_sub_spec() -> bool {
        exact::<T>()
    }

    open spec fn sub_req(self, rhs: Matrix4x4<T>) -> bool {
        total::<T>()
    }

    open spec fn sub_spec(self, rhs: Matrix4x4<T>) -> Matrix4x4<T> {
        minus4(self, rhs)
    }
}

impl<T: Scalar> core::ops::Mul<T> for Matrix4x4<T> {
    type Output = Matrix4x4<T>;

    fn mul(self, rhs: T) -> (r: Matrix4x4<T>)
        ensures
            exact::<T>() ==> r == scaled4(self, rhs),
    {
        Matrix4x4 {
            c00: self.c00 * rhs, c10: self.c10 * rhs, c20: self.c20 * rhs, c30: self.c30 * rhs,
            c01: self.c01 * rhs, c11: self.c11 * rhs, c21: self.c21 * rhs, c31: self.c31 * rhs,
            c02: self.c02 * rhs, c12: self.c12 * rhs, c22: self.c22 * rhs, c32: self.c32 * rhs,
            c03: self.c03 * rhs, c13: self.c13 * rhs, c23: self.c23 * rhs, c33: self.c33 * rhs,
        }
    }
}

impl<T: Scalar> vstd::std_specs::ops::MulSpecImpl<T> for Matrix4x4<T> {
    open spec fn obeys_mul_spec() -> bool {
        exact::<T>()
    }

    open spec fn mul_req(self, rhs: T) -> bool {
        total::<T>()
    }

    open spec fn mul_spec(self, rhs: T) -> Matrix4x4<T> {
        scaled4(self, rhs)
    }
}

impl<T: Scalar> core::ops::Mul<Matrix4x4<T>> for Matrix4x4<T> {
    type Output = Matrix4x4<T>;

    fn mul(self, rhs: Matrix4x4<T>) -> (r: Matrix4x4<T>)
        ensures
            exact::<T>() ==> r == product4(self, rhs),
    {
        Matrix4x4 {
            c00: self.c00 * rhs.c00 + self.c10 * rhs.c01 + self.c20 * rhs.c02 + self.c30 * rhs.c03, c10: self.c00 * rhs.c10 + self.c10 * rhs.c11 + self.c20 * rhs.c12 + self.c30 * rhs.c13, c20: self.c00 * rhs.c20 + self.c10 * rhs.c21 + self.c20 * rhs.c22 + self.c30 * rhs.c23, c30: self.c00 * rhs.c30 + self.c10 * rhs.c31 + self.c20 * rhs.c32 + self.c30 * rhs.c33,
            c01: self.c01 * rhs.c00 + self.c11 * rhs.c01 + self.c21 * rhs.c02 + self.c31 * rhs.c03, c11: self.c01 * rhs.c10 + self.c11 * rhs.c11 + self.c21 * rhs.c12 + self.c31 * rhs.c13, c21: self.c01 * rhs.c20 + self.c11 * rhs.c21 + self.c21 * rhs.c22 + self.c31 * rhs.c23, c31: self.c01 * rhs.c30 + self.c11 * rhs.c31 + self.c21 * rhs.c32 + self.c31 * rhs.c33,
            c02: self.c02 * rhs.c00 + self.c12 * rhs.c01 + self.c22 * rhs.c02 + self.c32 * rhs.c03, c12: self.c02 * rhs.c10 + self.c12 * rhs.c11 + self.c22 * rhs.c12 + self.c32 * rhs.c13, c22: self.c02 * rhs.c20 + self.c12 * rhs.c21 + self.c22 * rhs.c22 + self.c32 * rhs.c23, c32: self.c02 * rhs.c30 + self.c12 * rhs.c31 + self.c22 * rhs.c32 + self.c32 * rhs.c33,
            c03: self.c03 * rhs.c00 + self.c13 * rhs.c01 + self.c23 * rhs.c02 + self.c33 * rhs.c03, c13: self.c03 * rhs.c10 + self.c13 * rhs.c11 + self.c23 * rhs.c12 + self.c33 * rhs.c13, c23: self.c03 * rhs.c20 + self.c13 * rhs.c21 + self.c23 * rhs.c22 + self.c33 * rhs.c23, c33: self.c03 * rhs.c30 + self.c13 * rhs.c31 + self.c23 * rhs.c32 + self.c33 * rhs.c33,
        }
    }
}

impl<T: Scalar> vstd::std_specs::ops::MulSpecImpl<Matrix4x4<T>> for Matrix4x4<T> {
    open spec fn obeys_mul_spec() -> bool {
        exact::<T>()
    }

    open spec fn mul_req(self, rhs: Matrix4x4<T>) -> bool {
        total::<T>()
    }

    open spec fn mul_spec(self, rhs: Matrix4x4<T>) -> Matrix4x4<T> {
        product4(self, rhs)
    }
}


/// The matrix with `d` in the fields `c00`, `c11`, `c22`, one in `c33` and
/// `t` in `c03`, `c13`, `c23`; zero elsewhere.
pub open spec fn affine<T: Scalar>(d: Vector3<T>, t: Vector3<T>) -> Matrix4x4<T> {
    Matrix4x4 {
        c00: d.x, c10: lit::<T>(0), c20: lit::<T>(0), c30: lit::<T>(0),
        c01: lit::<T>(0), c11: d.y, c21: lit::<T>(0), c31: lit::<T>(0),
        c02: lit::<T>(0), c12: lit::<T>(0), c22: d.z, c32: lit::<T>(0),
        c03: t.x, c13: t.y, c23: t.z, c33: lit::<T>(1),
    }
}

/// The vector with all three fields `s`.
pub open spec fn splat<T>(s: T) -> Vector3<T> {
    Vector3 { x: s, y: s, z: s }
}

/// The left-handed perspective projection for a field of view whose half
/// angle has tangent `tan_half_fov`: `c00 = 2 / tan_half_fov`,
/// `c11 = c00 / aspect_ratio`, `c22 = far / (far - near)`, `c32 = 1`,
/// `c33 = near * far / (near - far)`, zero elsewhere.
pub open spec fn perspective<T: Scalar>(tan_half_fov: T, aspect_ratio: T, near: T, far: T) -> Matrix4x4<T> {
    let x_scale = sdiv(lit::<T>(2), tan_half_fov);
    let z = lit::<T>(0);
    Matrix4x4 {
        c00: x_scale, c10: z, c20: z, c30: z,
        c01: z, c11: sdiv(x_scale, aspect_ratio), c21: z, c31: z,
        c02: z, c12: z, c22: sdiv(far, ssub(far, near)), c32: lit::<T>(1),
        c03: z, c13: z, c23: z, c33: sdiv(smul(near, far), ssub(near, far)),
    }
}

/// The left-handed orthographic projection of a box:
/// `c00 = 2 / (right - left)`, `c11 = 2 / (top - bottom)`,
/// `c22 = 1 / (far - near)`, `c23 = -near / (far - near)`, `c33 = 1`,
/// zero elsewhere.
pub open spec fn orthographic<T: Scalar>(top: T, bottom: T, left: T, right: T, near: T, far: T) -> Matrix4x4<T> {
    let z = lit::<T>(0);
    Matrix4x4 {
        c00: sdiv(lit::<T>(2), ssub(right, left)), c10: z, c20: z, c30: z,
        c01: z, c11: sdiv(lit::<T>(2), ssub(top, bottom)), c21: z, c31: z,
        c02: z, c12: z, c22: sdiv(lit::<T>(1), ssub(far, near)), c32: z,
        c03: z, c13: z, c23: sdiv(sneg(near), ssub(far, near)), c33: lit::<T>(1),
    }
}

impl<T: Scalar> Matrix4x4<T> {
    /// The transform that moves a point by `translation`.
    pub fn from_translation(translation: &Vector3<T>) -> (r: Self)
        ensures
            exact::<T>() ==> r == affine(splat(lit::<T>(1)), *translation),
    {
        let o = one::<T>();
        let z = zero::<T>();
        Matrix4x4 {
            c00: o, c10: z, c20: z, c30: z,
            c01: z, c11: o, c21: z, c31: z,
            c02: z, c12: z, c22: o, c32: z,
            c03: translation.x, c13: translation.y, c23: translation.z, c33: o,
        }
    }

    /// The transform that scales each axis by the matching field of `scale`.
    pub fn from_nonuniform_scale(scale: &Vector3<T>) -> (r: Self)
        ensures
            exact::<T>() ==> r == affine(*scale, splat(lit::<T>(0))),
    {
        let o = one::<T>();
        let z = zero::<T>();
        Matrix4x4 {
            c00: scale.x, c10: z, c20: z, c30: z,
            c01: z, c11: scale.y, c21: z, c31: z,
            c02: z, c12: z, c22: scale.z, c32: z,
            c03: z, c13: z, c23: z, c33: o,
        }
    }

    /// The transform that scales every axis by `scale`.
    pub fn from_scale(scale: T) -> (r: Self)
        ensures
            exact::<T>() ==> r == affine(splat(scale), splat(lit::<T>(0))),
    {
        let o = one::<T>();
        let z = zero::<T>();
        Matrix4x4 {
            c00: scale, c10: z, c20: z, c30: z,
            c01: z, c11: scale, c21: z, c31: z,
            c02: z, c12: z, c22: scale, c32: z,
            c03: z, c13: z, c23: z, c33: o,
        }
    }

    /// The perspective projection for a field of view whose half angle has
    /// tangent `tan_half_fov`. Degenerate inputs are not rejected here: a zero
    /// aspect ratio or equal planes divide by zero.
    pub fn perspective_from_tangent(tan_half_fov: T, aspect_ratio: T, near_plane: T, far_plane: T) -> (r: Self)
        requires
            total::<T>(),
        ensures
            exact::<T>() ==> r == perspective(tan_half_fov, aspect_ratio, near_plane, far_plane),
    {
        let z = zero::<T>();
        let x_scale = T::from(2u8) / tan_half_fov;
        Matrix4x4 {
            c00: x_scale, c10: z, c20: z, c30: z,
            c01: z, c11: x_scale / aspect_ratio, c21: z, c31: z,
            c02: z, c12: z, c22: far_plane / (far_plane - near_plane), c32: one::<T>(),
            c03: z, c13: z, c23: z, c33: near_plane * far_plane / (near_plane - far_plane),
        }
    }

    /// The orthographic projection of the box between the given planes.
    /// Degenerate inputs are not rejected here: equal opposite planes divide
    /// by zero.
    pub fn orthographic_projection(top: T, bottom: T, left: T, right: T, near_plane: T, far_plane: T) -> (r: Self)
        requires
            total::<T>(),
        ensures
            exact::<T>() ==> r == orthographic(top, bottom, left, right, near_plane, far_plane),
    {
        let z = zero::<T>();
        let two = T::from(2u8);
        Matrix4x4 {
            c00: two / (right - left), c10: z, c20: z, c30: z,
            c01: z, c11: two / (top - bottom), c21: z, c31: z,
            c02: z, c12: z, c22: one::<T>() / (far_plane - near_plane), c32: z,
            c03: z, c13: z, c23: T::neg(near_plane) / (far_plane - near_plane), c33: one::<T>(),
        }
    }
}


/// The basis whose fields `c0J`, `c1J`, `c2J` hold, for `J` = 0, 1, 2,
/// `up × forward`, `up` and `forward`.
pub open spec fn look_at_basis<T: Scalar>(forward: Vector3<T>, up: Vector3<T>) -> Matrix3x3<T> {
    let right = cross3(up, forward);
    Matrix3x3 {
        c00: right.x, c10: right.y, c20: right.z,
        c01: up.x, c11: up.y, c21: up.z,
        c02: forward.x, c12: forward.y, c22: forward.z,
    }
}

impl<T: Scalar> Matrix3x3<T> {
    /// The rotation basis that looks along `forward` with `up` above, both of
    /// unit length already. `up` is not made orthogonal to `forward`.
    pub fn from_look_at_unit(forward: &Vector3<T>, up: &Vector3<T>) -> (r: Self)
        requires
            total::<T>(),
        ensures
            exact::<T>() ==> r == look_at_basis(*forward, *up),
    {
        let right = up.cross(forward);
        Matrix3x3 {
            c00: right.x, c10: right.y, c20: right.z,
            c01: up.x, c11: up.y, c21: up.z,
            c02: forward.x, c12: forward.y, c22: forward.z,
        }
    }
}


/// A matrix of one column and three rows.
#[derive(Clone, Copy, Debug)]
pub struct Matrix1x3<T> {
    pub c00: T,
    pub c01: T,
    pub c02: T,
}

/// The field-wise sum.
pub open spec fn plus1x3<T: Scalar>(a: Matrix1x3<T>, b: Matrix1x3<T>) -> Matrix1x3<T> {
    Matrix1x3 { c00: sadd(a.c00, b.c00), c01: sadd(a.c01, b.c01), c02: sadd(a.c02, b.c02) }
}

/// The field-wise difference.
pub open spec fn minus1x3<T: Scalar>(a: Matrix1x3<T>, b: Matrix1x3<T>) -> Matrix1x3<T> {
    Matrix1x3 { c00: ssub(a.c00, b.c00), c01: ssub(a.c01, b.c01), c02: ssub(a.c02, b.c02) }
}

/// Every field multiplied by `s`.
pub open spec fn scaled1x3<T: Scalar>(m: Matrix1x3<T>, s: T) -> Matrix1x3<T> {
    Matrix1x3 { c00: smul(m.c00, s), c01: smul(m.c01, s), c02: smul(m.c02, s) }
}

/// A 3 x 3 matrix times a column: field `c0J` of the result sums
/// `m.field(k, J)` times the column's `k`-th field over `k` in increasing order.
pub open spec fn apply3<T: Scalar>(m: Matrix3x3<T>, v: Matrix1x3<T>) -> Matrix1x3<T> {
    Matrix1x3 {
        c00: sadd(sadd(smul(m.c00, v.c00), smul(m.c10, v.c01)), smul(m.c20, v.c02)),
        c01: sadd(sadd(smul(m.c01, v.c00), smul(m.c11, v.c01)), smul(m.c21, v.c02)),
        c02: sadd(sadd(smul(m.c02, v.c00), smul(m.c12, v.c01)), smul(m.c22, v.c02)),
    }
}

impl<T: Scalar> core::ops::Add<Matrix1x3<T>> for Matrix1x3<T> {
    type Output = Matrix1x3<T>;

    fn add(self, rhs: Matrix1x3<T>) -> (r: Matrix1x3<T>)
        ensures
            exact::<T>() ==> r == plus1x3(self, rhs),
    {
        Matrix1x3 { c00: self.c00 + rhs.c00, c01: self.c01 + rhs.c01, c02: self.c02 + rhs.c02 }
    }
}

impl<T: Scalar> vstd::std_specs::ops::AddSpecImpl<Matrix1x3<T>> for Matrix1x3<T> {
    open spec fn obeys_add_spec() -> bool {
        exact::<T>()
    }

    open spec fn add_req(self, rhs: Matrix1x3<T>) -> bool {
        total::<T>()
    }

    open spec fn add_spec(self, rhs: Matrix1x3<T>) -> Matrix1x3<T> {
        plus1x3(self, rhs)
    }
}

impl<T: Scalar> core::ops::Sub<Matrix1x3<T>> for Matrix1x3<T> {
    type Output = Matrix1x3<T>;

    fn sub(self, rhs: Matrix1x3<T>) -> (r: Matrix1x3<T>)
        ensures
            exact::<T>() ==> r == minus1x3(self, rhs),
    {
        Matrix1x3 { c00: self.c00 - rhs.c00, c01: self.c01 - rhs.c01, c02: self.c02 - rhs.c02 }
    }
}

impl<T: Scalar> vstd::std_specs::ops::SubSpecImpl<Matrix1x3<T>> for Matrix1x3<T> {
    open spec fn obeys_sub_spec() -> bool {
        exact::<T>()
    }

    open spec fn sub_req(self, rhs: Matrix1x3<T>) -> bool {
        total::<T>()
    }

    open spec fn sub_spec(self, rhs: Matrix1x3<T>) -> Matrix1x3<T> {
        minus1x3(self, rhs)
    }
}

impl<T: Scalar> core::ops::Mul<T> for Matrix1x3<T> {
    type Output = Matrix1x3<T>;

    fn mul(self, rhs: T) -> (r: Matrix1x3<T>)
        ensures
            exact::<T>() ==> r == scaled1x3(self, rhs),
    {
        Matrix1x3 { c00: self.c00 * rhs, c01: self.c01 * rhs, c02: self.c02 * rhs }
    }
}

impl<T: Scalar> vstd::std_specs::ops::MulSpecImpl<T> for Matrix1x3<T> {
    open spec fn obeys_mul_spec() -> bool {
        exact::<T>()
    }

    open spec fn mul_req(self, rhs: T) -> bool {
        total::<T>()
    }

    open spec fn mul_spec(self, rhs: T) -> Matrix1x3<T> {
        scaled1x3(self, rhs)
    }
}

impl<T: Scalar> core::ops::Mul<Matrix1x3<T>> for Matrix3x3<T> {
    type Output = Matrix1x3<T>;

    fn mul(self, rhs: Matrix1x3<T>) -> (r: Matrix1x3<T>)
        ensures
            exact::<T>() ==> r == apply3(self, rhs),
    {
        Matrix1x3 {
            c00: self.c00 * rhs.c00 + self.c10 * rhs.c01 + self.c20 * rhs.c02,
            c01: self.c01 * rhs.c00 + self.c11 * rhs.c01 + self.c21 * rhs.c02,
            c02: self.c02 * rhs.c00 + self.c12 * rhs.c01 + self.c22 * rhs.c02,
        }
    }
}

impl<T: Scalar> vstd::std_specs::ops::MulSpecImpl<Matrix1x3<T>> for Matrix3x3<T> {
    open spec fn obeys_mul_spec() -> bool {
        exact::<T>()
    }

    open spec fn mul_req(self, rhs: Matrix1x3<T>) -> bool {
        total::<T>()
    }

    open spec fn mul_spec(self, rhs: Matrix1x3<T>) -> Matrix1x3<T> {
        apply3(self, rhs)
    }
}

} // verus!
