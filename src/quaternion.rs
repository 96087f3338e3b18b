//! Rotation quaternions and their conversion to transform matrices.
//!
//! Square roots and trigonometric functions are not computed here: the
//! constructors that need them take their results as arguments, and a
//! constructed rotation is brought to unit length by dividing it by its
//! magnitude.
use vstd::prelude::*;
use crate::scalar::{Scalar, total, exact, sadd, ssub, smul, sdiv, lit, one, zero, sge, sgt};
use crate::vector::{Vector3, transform_point};
use crate::matrix::{Matrix3x3, Matrix4x4, product4};

verus! {

/// A rotation, by convention of unit magnitude; nothing enforces it.
#[derive(Clone, Copy, Debug)]
pub struct Quaternion<T> {
    pub x: T,
    pub y: T,
    pub z: T,
    pub w: T,
}

/// The Hamilton product, `a` first.
pub open spec fn hamilton<T: Scalar>(a: Quaternion<T>, b: Quaternion<T>) -> Quaternion<T> {
    Quaternion {
        x: ssub(sadd(sadd(smul(a.w, b.x), smul(a.x, b.w)), smul(a.y, b.z)), smul(a.z, b.y)),
        y: ssub(sadd(sadd(smul(a.w, b.y), smul(a.y, b.w)), smul(a.z, b.x)), smul(a.x, b.z)),
        z: ssub(sadd(sadd(smul(a.w, b.z), smul(a.z, b.w)), smul(a.x, b.y)), smul(a.y, b.x)),
        w: ssub(ssub(ssub(smul(a.w, b.w), smul(a.x, b.x)), smul(a.y, b.y)), smul(a.z, b.z)),
    }
}

/// The sum of the squares of the four fields.
pub open spec fn qdot<T: Scalar>(q: Quaternion<T>) -> T {
    sadd(sadd(sadd(smul(q.x, q.x), smul(q.y, q.y)), smul(q.z, q.z)), smul(q.w, q.w))
}

/// Every field divided by `s`.
pub open spec fn qdivided<T: Scalar>(q: Quaternion<T>, s: T) -> Quaternion<T> {
    Quaternion { x: sdiv(q.x, s), y: sdiv(q.y, s), z: sdiv(q.z, s), w: sdiv(q.w, s) }
}

/// The rotation matrix of `q`, from the doubled products
/// `xx = x (2x)`, `xy = x (2y)`, `wx = w (2x)` and so on; the translation is
/// zero and `c33` is one.
pub open spec fn rotation<T: Scalar>(q: Quaternion<T>) -> Matrix4x4<T> {
    let x2 = smul(q.x, lit::<T>(2));
    let y2 = smul(q.y, lit::<T>(2));
    let z2 = smul(q.z, lit::<T>(2));
    let xx = smul(q.x, x2);
    let yy = smul(q.y, y2);
    let zz = smul(q.z, z2);
    let xy = smul(q.x, y2);
    let xz = smul(q.x, z2);
    let yz = smul(q.y, z2);
    let wx = smul(q.w, x2);
    let wy = smul(q.w, y2);
    let wz = smul(q.w, z2);
    let o = lit::<T>(1);
    let n = lit::<T>(0);
    Matrix4x4 {
        c00: ssub(o, sadd(yy, zz)), c10: ssub(xy, wz), c20: sadd(xz, wy), c30: n,
        c01: sadd(xy, wz), c11: ssub(o, sadd(xx, zz)), c21: ssub(yz, wx), c31: n,
        c02: ssub(xz, wy), c12: sadd(yz, wx), c22: ssub(o, sadd(xx, yy)), c32: n,
        c03: n, c13: n, c23: n, c33: o,
    }
}

/// The rotation by an angle about `axis`, given the sine and cosine of half
/// the angle, before it is brought to unit length.
pub open spec fn axis_half_angle<T: Scalar>(axis: Vector3<T>, sin_half: T, cos_half: T) -> Quaternion<T> {
    Quaternion { x: smul(axis.x, sin_half), y: smul(axis.y, sin_half), z: smul(axis.z, sin_half), w: cos_half }
}

/// The rotation from half angles about x (`cr`, `sr`), y (`cp`, `sp`) and z
/// (`cy`, `sy`), before it is brought to unit length.
pub open spec fn euler_half_angles<T: Scalar>(cr: T, sr: T, cp: T, sp: T, cy: T, sy: T) -> Quaternion<T> {
    Quaternion {
        x: ssub(smul(smul(cy, sr), cp), smul(smul(sy, cr), sp)),
        y: sadd(smul(smul(cy, cr), sp), smul(smul(sy, sr), cp)),
        z: ssub(smul(smul(sy, cr), cp), smul(smul(cy, sr), sp)),
        w: sadd(smul(smul(cy, cr), cp), smul(smul(sy, sr), sp)),
    }
}

/// Which of the four extraction formulas turns a rotation basis into a
/// quaternion.
#[derive(Clone, Copy, Debug, PartialEq, Eq, Structural)]
pub enum RotationBranch {
    /// The trace is not negative.
    Trace,
    /// `c00` is the largest diagonal field.
    X,
    /// `c11` is the largest diagonal field.
    Y,
    /// `c22` is the largest diagonal field.
    Z,
}

/// `c00 + c11 + c22`.
pub open spec fn trace<T: Scalar>(m: Matrix3x3<T>) -> T {
    sadd(sadd(m.c00, m.c11), m.c22)
}

/// The branch policy, in order of preference: a trace of at least zero; else
/// `c00` above both other diagonal fields; else `c11` above `c22`; else `c22`.
pub open spec fn branch_of<T: Scalar>(m: Matrix3x3<T>) -> RotationBranch {
    if sge(trace(m), lit::<T>(0)) {
        RotationBranch::Trace
    } else if sgt(m.c00, m.c11) && sgt(m.c00, m.c22) {
        RotationBranch::X
    } else if sgt(m.c11, m.c22) {
        RotationBranch::Y
    } else {
        RotationBranch::Z
    }
}

/// The value whose square root, doubled, is the branch's divisor `s`:
/// `trace + 1`, or one plus the chosen diagonal field minus the other two.
pub open spec fn radicand<T: Scalar>(m: Matrix3x3<T>, b: RotationBranch) -> T {
    let o = lit::<T>(1);
    match b {
        RotationBranch::Trace => sadd(trace(m), o),
        RotationBranch::X => ssub(ssub(sadd(o, m.c00), m.c11), m.c22),
        RotationBranch::Y => ssub(ssub(sadd(o, m.c11), m.c00), m.c22),
        RotationBranch::Z => ssub(ssub(sadd(o, m.c22), m.c00), m.c11),
    }
}

/// The quaternion that branch `b` extracts from `m` with divisor `s`, before
/// it is brought to unit length.
pub open spec fn extracted<T: Scalar>(m: Matrix3x3<T>, b: RotationBranch, s: T) -> Quaternion<T> {
    let quarter = sdiv(s, lit::<T>(4));
    match b {
        RotationBranch::Trace => Quaternion {
            x: sdiv(ssub(m.c21, m.c12), s),
            y: sdiv(ssub(m.c02, m.c20), s),
            z: sdiv(ssub(m.c10, m.c01), s),
            w: quarter,
        },
        RotationBranch::X => Quaternion {
            x: quarter,
            y: sdiv(sadd(m.c01, m.c10), s),
            z: sdiv(sadd(m.c02, m.c20), s),
            w: sdiv(ssub(m.c21, m.c12), s),
        },
        RotationBranch::Y => Quaternion {
            x: sdiv(sadd(m.c01, m.c10), s),
            y: quarter,
            z: sdiv(sadd(m.c12, m.c21), s),
            w: sdiv(ssub(m.c02, m.c20), s),
        },
        RotationBranch::Z => Quaternion {
            x: sdiv(sadd(m.c02, m.c20), s),
            y: sdiv(sadd(m.c12, m.c21), s),
            z: quarter,
            w: sdiv(ssub(m.c10, m.c01), s),
        },
    }
}

impl<T: Scalar> Quaternion<T> {
    /// The rotation that does nothing: `(0, 0, 0, 1)`.
    pub fn identity() -> (r: Self)
        ensures
            exact::<T>() ==> r == (Quaternion { x: lit::<T>(0), y: lit::<T>(0), z: lit::<T>(0), w: lit::<T>(1) }),
    {
        let z = zero::<T>();
        Quaternion { x: z, y: z, z: z, w: one::<T>() }
    }

    /// The sum of the squares of the fields: the squared magnitude.
    pub fn magnitude_squared(&self) -> (r: T)
        requires
            total::<T>(),
        ensures
            exact::<T>() ==> r == qdot(*self),
    {
        self.x * self.x + self.y * self.y + self.z * self.z + self.w * self.w
    }

    /// The rotation about `axis` by the angle whose half has the given sine
    /// and cosine, before it is brought to unit length.
    pub fn from_axis_half_angle(axis: &Vector3<T>, sin_half: T, cos_half: T) -> (r: Self)
        requires
            total::<T>(),
        ensures
            exact::<T>() ==> r == axis_half_angle(*axis, sin_half, cos_half),
    {
        Quaternion { x: axis.x * sin_half, y: axis.y * sin_half, z: axis.z * sin_half, w: cos_half }
    }

    /// The rotation from the cosines and sines of half the angles about x
    /// (`cr`, `sr`), y (`cp`, `sp`) and z (`cy`, `sy`), before it is brought
    /// to unit length.
    pub fn from_euler_half_angles(cr: T, sr: T, cp: T, sp: T, cy: T, sy: T) -> (r: Self)
        requires
            total::<T>(),
        ensures
            exact::<T>() ==> r == euler_half_angles(cr, sr, cp, sp, cy, sy),
    {
        Quaternion {
            x: cy * sr * cp - sy * cr * sp,
            y: cy * cr * sp + sy * sr * cp,
            z: sy * cr * cp - cy * sr * sp,
            w: cy * cr * cp + sy * sr * sp,
        }
    }

    /// Which extraction formula applies to the basis `m`.
    pub fn rotation_branch(m: &Matrix3x3<T>) -> (r: RotationBranch)
        requires
            total::<T>(),
        ensures
            exact::<T>() ==> r == branch_of(*m),
    {
        let tr = m.c00 + m.c11 + m.c22;
        if tr >= zero::<T>() {
            RotationBranch::Trace
        } else if m.c00 > m.c11 && m.c00 > m.c22 {
            RotationBranch::X
        } else if m.c11 > m.c22 {
            RotationBranch::Y
        } else {
            RotationBranch::Z
        }
    }

    /// The value whose square root, doubled, is the divisor of branch `b`.
    pub fn branch_radicand(m: &Matrix3x3<T>, b: RotationBranch) -> (r: T)
        requires
            total::<T>(),
        ensures
            exact::<T>() ==> r == radicand(*m, b),
    {
        let o = one::<T>();
        match b {
            RotationBranch::Trace => m.c00 + m.c11 + m.c22 + o,
            RotationBranch::X => o + m.c00 - m.c11 - m.c22,
            RotationBranch::Y => o + m.c11 - m.c00 - m.c22,
            RotationBranch::Z => o + m.c22 - m.c00 - m.c11,
        }
    }

    /// The quaternion that branch `b` extracts from the basis `m` with the
    /// divisor `s`, before it is brought to unit length.
    pub fn from_rotation_branch(m: &Matrix3x3<T>, b: RotationBranch, s: T) -> (r: Self)
        requires
            total::<T>(),
        ensures
            exact::<T>() ==> r == extracted(*m, b, s),
    {
        let quarter = s / T::from(4u8);
        match b {
            RotationBranch::Trace => Quaternion {
                x: (m.c21 - m.c12) / s,
                y: (m.c02 - m.c20) / s,
                z: (m.c10 - m.c01) / s,
                w: quarter,
            },
            RotationBranch::X => Quaternion {
                x: quarter,
                y: (m.c01 + m.c10) / s,
                z: (m.c02 + m.c20) / s,
                w: (m.c21 - m.c12) / s,
            },
            RotationBranch::Y => Quaternion {
                x: (m.c01 + m.c10) / s,
                y: quarter,
                z: (m.c12 + m.c21) / s,
                w: (m.c02 - m.c20) / s,
            },
            RotationBranch::Z => Quaternion {
                x: (m.c02 + m.c20) / s,
                y: (m.c12 + m.c21) / s,
                z: quarter,
                w: (m.c10 - m.c01) / s,
            },
        }
    }
}

impl<T: Scalar> Matrix4x4<T> {
    /// The rotation matrix of `q`.
    pub fn from_quaternion(q: &Quaternion<T>) -> (r: Self)
        requires
            total::<T>(),
        ensures
            exact::<T>() ==> r == rotation(*q),
    {
        let two = T::from(2u8);
        let x = q.x * two;
        let y = q.y * two;
        let z = q.z * two;
        let xx = q.x * x;
        let yy = q.y * y;
        let zz = q.z * z;
        let xy = q.x * y;
        let xz = q.x * z;
        let yz = q.y * z;
        let wx = q.w * x;
        let wy = q.w * y;
        let wz = q.w * z;
        let o = one::<T>();
        let n = zero::<T>();
        Matrix4x4 {
            c00: o - (yy + zz), c10: xy - wz, c20: xz + wy, c30: n,
            c01: xy + wz, c11: o - (xx + zz), c21: yz - wx, c31: n,
            c02: xz - wy, c12: yz + wx, c22: o - (xx + yy), c32: n,
            c03: n, c13: n, c23: n, c33: o,
        }
    }
}

impl<T: Scalar> core::ops::Mul for Quaternion<T> {
    type Output = Quaternion<T>;

    fn mul(self, rhs: Quaternion<T>) -> (r: Quaternion<T>)
        ensures
            exact::<T>() ==> r == hamilton(self, rhs),
    {
        Quaternion {
            x: self.w * rhs.x + self.x * rhs.w + self.y * rhs.z - self.z * rhs.y,
            y: self.w * rhs.y + self.y * rhs.w + self.z * rhs.x - self.x * rhs.z,
            z: self.w * rhs.z + self.z * rhs.w + self.x * rhs.y - self.y * rhs.x,
            w: self.w * rhs.w - self.x * rhs.x - self.y * rhs.y - self.z * rhs.z,
        }
    }
}

impl<T: Scalar> vstd::std_specs::ops::MulSpecImpl for Quaternion<T> {
    open spec fn obeys_mul_spec() -> bool {
        exact::<T>()
    }

    open spec fn mul_req(self, rhs: Quaternion<T>) -> bool {
        total::<T>()
    }

    open spec fn mul_spec(self, rhs: Quaternion<T>) -> Quaternion<T> {
        hamilton(self, rhs)
    }
}

impl<T: Scalar> core::ops::Div<T> for Quaternion<T> {
    type Output = Quaternion<T>;

    fn div(self, rhs: T) -> (r: Quaternion<T>)
        ensures
            exact::<T>() ==> r == qdivided(self, rhs),
    {
        Quaternion { x: self.x / rhs, y: self.y / rhs, z: self.z / rhs, w: self.w / rhs }
    }
}

impl<T: Scalar> vstd::std_specs::ops::DivSpecImpl<T> for Quaternion<T> {
    open spec fn obeys_div_spec() -> bool {
        exact::<T>()
    }

    open spec fn div_req(self, rhs: T) -> bool {
        total::<T>()
    }

    open spec fn div_spec(self, rhs: T) -> Quaternion<T> {
        qdivided(self, rhs)
    }
}

impl<T: Scalar> core::ops::Mul<Matrix4x4<T>> for Quaternion<T> {
    type Output = Matrix4x4<T>;

    fn mul(self, rhs: Matrix4x4<T>) -> (r: Matrix4x4<T>)
        ensures
            exact::<T>() ==> r == product4(rotation(self), rhs),
    {
        Matrix4x4::from_quaternion(&self) * rhs
    }
}

impl<T: Scalar> vstd::std_specs::ops::MulSpecImpl<Matrix4x4<T>> for Quaternion<T> {
    open spec fn obeys_mul_spec() -> bool {
        exact::<T>()
    }

    open spec fn mul_req(self, rhs: Matrix4x4<T>) -> bool {
        total::<T>()
    }

    open spec fn mul_spec(self, rhs: Matrix4x4<T>) -> Matrix4x4<T> {
        product4(rotation(self), rhs)
    }
}

impl<T: Scalar> core::ops::Mul<Quaternion<T>> for Matrix4x4<T> {
    type Output = Matrix4x4<T>;

    fn mul(self, rhs: Quaternion<T>) -> (r: Matrix4x4<T>)
        ensures
            exact::<T>() ==> r == product4(self, rotation(rhs)),
    {
        self * Matrix4x4::from_quaternion(&rhs)
    }
}

impl<T: Scalar> vstd::std_specs::ops::MulSpecImpl<Quaternion<T>> for Matrix4x4<T> {
    open spec fn obeys_mul_spec() -> bool {
        exact::<T>()
    }

    open spec fn mul_req(self, rhs: Quaternion<T>) -> bool {
        total::<T>()
    }

    open spec fn mul_spec(self, rhs: Quaternion<T>) -> Matrix4x4<T> {
        product4(self, rotation(rhs))
    }
}

impl<T: Scalar> core::ops::Mul<Quaternion<T>> for Vector3<T> {
    type Output = Vector3<T>;

    fn mul(self, rhs: Quaternion<T>) -> (r: Vector3<T>)
        ensures
            exact::<T>() ==> r == transform_point(self, rotation(rhs)),
    {
        self * Matrix4x4::from_quaternion(&rhs)
    }
}

impl<T: Scalar> vstd::std_specs::ops::MulSpecImpl<Quaternion<T>> for Vector3<T> {
    open spec fn obeys_mul_spec() -> bool {
        exact::<T>()
    }

    open spec fn mul_req(self, rhs: Quaternion<T>) -> bool {
        total::<T>()
    }

    open spec fn mul_spec(self, rhs: Quaternion<T>) -> Vector3<T> {
        transform_point(self, rotation(rhs))
    }
}

} // verus!
