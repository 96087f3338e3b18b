//! Two-, three- and four-component vectors.
use vstd::prelude::*;
use crate::scalar::{Scalar, total, exact, sadd, ssub, smul, sdiv, sneg, lit, one, zero};
use crate::matrix::{Matrix3x3, Matrix4x4};

verus! {

/// A 2-component vector.
#[derive(Clone, Copy, Debug)]
pub struct Vector2<T> {
    pub x: T,
    pub y: T,
}

/// The field-wise sum.
pub open spec fn vplus2<T: Scalar>(a: Vector2<T>, b: Vector2<T>) -> Vector2<T> {
    Vector2 { x: sadd(a.x, b.x), y: sadd(a.y, b.y) }
}

/// The field-wise difference.
pub open spec fn vminus2<T: Scalar>(a: Vector2<T>, b: Vector2<T>) -> Vector2<T> {
    Vector2 { x: ssub(a.x, b.x), y: ssub(a.y, b.y) }
}

/// Every field multiplied by `s`.
pub open spec fn vscaled2<T: Scalar>(v: Vector2<T>, s: T) -> Vector2<T> {
    Vector2 { x: smul(v.x, s), y: smul(v.y, s) }
}

/// Every field divided by `s`.
pub open spec fn vdivided2<T: Scalar>(v: Vector2<T>, s: T) -> Vector2<T> {
    Vector2 { x: sdiv(v.x, s), y: sdiv(v.y, s) }
}

/// Every field negated.
pub open spec fn vnegated2<T: Scalar>(v: Vector2<T>) -> Vector2<T> {
    Vector2 { x: sneg(v.x), y: sneg(v.y) }
}

/// The sum of the products of matching fields, in field order.
pub open spec fn dot2<T: Scalar>(a: Vector2<T>, b: Vector2<T>) -> T {
    sadd(smul(a.x, b.x), smul(a.y, b.y))
}

impl<T: Scalar> Vector2<T> {
    /// The vector with the given fields.
    pub fn new(x: T, y: T) -> (r: Self)
        ensures
            r == (Vector2 { x: x, y: y }),
    {
        Vector2 { x: x, y: y }
    }

    /// The unit vector along `x`.
    pub fn unit_x() -> (r: Self)
        ensures
            exact::<T>() ==> r == (Vector2 { x: lit::<T>(1), y: lit::<T>(0) }),
    {
        let o = one::<T>();
        let z = zero::<T>();
        Vector2 { x: o, y: z }
    }

    /// The unit vector along `y`.
    pub fn unit_y() -> (r: Self)
        ensures
            exact::<T>() ==> r == (Vector2 { x: lit::<T>(0), y: lit::<T>(1) }),
    {
        let o = one::<T>();
        let z = zero::<T>();
        Vector2 { x: z, y: o }
    }

    /// The dot product with `rhs`.
    pub fn dot(&self, rhs: &Self) -> (r: T)
        requires
            total::<T>(),
        ensures
            exact::<T>() ==> r == dot2(*self, *rhs),
    {
        self.x * rhs.x + self.y * rhs.y
    }
}

impl<T: Scalar> core::ops::Add<Vector2<T>> for Vector2<T> {
    type Output = Vector2<T>;

    fn add(self, rhs: Vector2<T>) -> (r: Vector2<T>)
        ensures
            exact::<T>() ==> r == vplus2(self, rhs),
    {
        Vector2 { x: self.x + rhs.x, y: self.y + rhs.y }
    }
}

impl<T: Scalar> vstd::std_specs::ops::AddSpecImpl<Vector2<T>> for Vector2<T> {
    open spec fn obeys_add_spec() -> bool {
        exact::<T>()
    }

    open spec fn add_req(self, rhs: Vector2<T>) -> bool {
        total::<T>()
    }

    open spec fn add_spec(self, rhs: Vector2<T>) -> Vector2<T> {
        vplus2(self, rhs)
    }
}

impl<T: Scalar> core::ops::Sub<Vector2<T>> for Vector2<T> {
    type Output = Vector2<T>;

    fn sub(self, rhs: Vector2<T>) -> (r: Vector2<T>)
        ensures
            exact::<T>() ==> r == vminus2(self, rhs),
    {
        Vector2 { x: self.x - rhs.x, y: self.y - rhs.y }
    }
}

impl<T: Scalar> vstd::std_specs::ops::SubSpecImpl<Vector2<T>> for Vector2<T> {
    open spec fn obeys_sub_spec() -> bool {
        exact::<T>()
    }

    open spec fn sub_req(self, rhs: Vector2<T>) -> bool {
        total::<T>()
    }

    open spec fn sub_spec(self, rhs: Vector2<T>) -> Vector2<T> {
        vminus2(self, rhs)
    }
}

impl<T: Scalar> core::ops::Mul<T> for Vector2<T> {
    type Output = Vector2<T>;

    fn mul(self, rhs: T) -> (r: Vector2<T>)
        ensures
            exact::<T>() ==> r == vscaled2(self, rhs),
    {
        Vector2 { x: self.x * rhs, y: self.y * rhs }
    }
}

impl<T: Scalar> vstd::std_specs::ops::MulSpecImpl<T> for Vector2<T> {
    open spec fn obeys_mul_spec() -> bool {
        exact::<T>()
    }

    open spec fn mul_req(self, rhs: T) -> bool {
        total::<T>()
    }

    open spec fn mul_spec(self, rhs: T) -> Vector2<T> {
        vscaled2(self, rhs)
    }
}

impl<T: Scalar> core::ops::Div<T> for Vector2<T> {
    type Output = Vector2<T>;

    fn div(self, rhs: T) -> (r: Vector2<T>)
        ensures
            exact::<T>() ==> r == vdivided2(self, rhs),
    {
        Vector2 { x: self.x / rhs, y: self.y / rhs }
    }
}

impl<T: Scalar> vstd::std_specs::ops::DivSpecImpl<T> for Vector2<T> {
    open spec fn obeys_div_spec() -> bool {
        exact::<T>()
    }

    open spec fn div_req(self, rhs: T) -> bool {
        total::<T>()
    }

    open spec fn div_spec(self, rhs: T) -> Vector2<T> {
        vdivided2(self, rhs)
    }
}

impl<T: Scalar> core::ops::Neg for Vector2<T> {
    type Output = Vector2<T>;

    fn neg(self) -> (r: Vector2<T>)
        ensures
            exact::<T>() ==> r == vnegated2(self),
    {
        Vector2 { x: T::neg(self.x), y: T::neg(self.y) }
    }
}

impl<T: Scalar> vstd::std_specs::ops::NegSpecImpl for Vector2<T> {
    open spec fn obeys_neg_spec() -> bool {
        exact::<T>()
    }

    open spec fn neg_req(self) -> bool {
        total::<T>()
    }

    open spec fn neg_spec(self) -> Vector2<T> {
        vnegated2(self)
    }
}

/// A 3-component vector.
#[derive(Clone, Copy, Debug)]
pub struct Vector3<T> {
    pub x: T,
    pub y: T,
    pub z: T,
}

/// The field-wise sum.
pub open spec fn vplus3<T: Scalar>(a: Vector3<T>, b: Vector3<T>) -> Vector3<T> {
    Vector3 { x: sadd(a.x, b.x), y: sadd(a.y, b.y), z: sadd(a.z, b.z) }
}

/// The field-wise difference.
pub open spec fn vminus3<T: Scalar>(a: Vector3<T>, b: Vector3<T>) -> Vector3<T> {
    Vector3 { x: ssub(a.x, b.x), y: ssub(a.y, b.y), z: ssub(a.z, b.z) }
}

/// Every field multiplied by `s`.
pub open spec fn vscaled3<T: Scalar>(v: Vector3<T>, s: T) -> Vector3<T> {
    Vector3 { x: smul(v.x, s), y: smul(v.y, s), z: smul(v.z, s) }
}

/// Every field divided by `s`.
pub open spec fn vdivided3<T: Scalar>(v: Vector3<T>, s: T) -> Vector3<T> {
    Vector3 { x: sdiv(v.x, s), y: sdiv(v.y, s), z: sdiv(v.z, s) }
}

/// Every field negated.
pub open spec fn vnegated3<T: Scalar>(v: Vector3<T>) -> Vector3<T> {
    Vector3 { x: sneg(v.x), y: sneg(v.y), z: sneg(v.z) }
}

/// The sum of the products of matching fields, in field order.
pub open spec fn dot3<T: Scalar>(a: Vector3<T>, b: Vector3<T>) -> T {
    sadd(sadd(smul(a.x, b.x), smul(a.y, b.y)), smul(a.z, b.z))
}

impl<T: Scalar> Vector3<T> {
    /// The vector with the given fields.
    pub fn new(x: T, y: T, z: T) -> (r: Self)
        ensures
            r == (Vector3 { x: x, y: y, z: z }),
    {
        Vector3 { x: x, y: y, z: z }
    }

    /// The unit vector along `x`.
    pub fn unit_x() -> (r: Self)
        ensures
            exact::<T>() ==> r == (Vector3 { x: lit::<T>(1), y: lit::<T>(0), z: lit::<T>(0) }),
    {
        let o = one::<T>();
        let z = zero::<T>();
        Vector3 { x: o, y: z, z: z }
    }

    /// The unit vector along `y`.
    pub fn unit_y() -> (r: Self)
        ensures
            exact::<T>() ==> r == (Vector3 { x: lit::<T>(0), y: lit::<T>(1), z: lit::<T>(0) }),
    {
        let o = one::<T>();
        let z = zero::<T>();
        Vector3 { x: z, y: o, z: z }
    }

    /// The unit vector along `z`.
    pub fn unit_z() -> (r: Self)
        ensures
            exact::<T>() ==> r == (Vector3 { x: lit::<T>(0), y: lit::<T>(0), z: lit::<T>(1) }),
    {
        let o = one::<T>();
        let z = zero::<T>();
        Vector3 { x: z, y: z, z: o }
    }

    /// The dot product with `rhs`.
    pub fn dot(&self, rhs: &Self) -> (r: T)
        requires
            total::<T>(),
        ensures
            exact::<T>() ==> r == dot3(*self, *rhs),
    {
        self.x * rhs.x + self.y * rhs.y + self.z * rhs.z
    }
}

impl<T: Scalar> core::ops::Add<Vector3<T>> for Vector3<T> {
    type Output = Vector3<T>;

    fn add(self, rhs: Vector3<T>) -> (r: Vector3<T>)
        ensures
            exact::<T>() ==> r == vplus3(self, rhs),
    {
        Vector3 { x: self.x + rhs.x, y: self.y + rhs.y, z: self.z + rhs.z }
    }
}

impl<T: Scalar> vstd::std_specs::ops::AddSpecImpl<Vector3<T>> for Vector3<T> {
    open spec fn obeys_add_spec() -> bool {
        exact::<T>()
    }

    open spec fn add_req(self, rhs: Vector3<T>) -> bool {
        total::<T>()
    }

    open spec fn add_spec(self, rhs: Vector3<T>) -> Vector3<T> {
        vplus3(self, rhs)
    }
}

impl<T: Scalar> core::ops::Sub<Vector3<T>> for Vector3<T> {
    type Output = Vector3<T>;

    fn sub(self, rhs: Vector3<T>) -> (r: Vector3<T>)
        ensures
            exact::<T>() ==> r == vminus3(self, rhs),
    {
        Vector3 { x: self.x - rhs.x, y: self.y - rhs.y, z: self.z - rhs.z }
    }
}

impl<T: Scalar> vstd::std_specs::ops::SubSpecImpl<Vector3<T>> for Vector3<T> {
    open spec fn obeys_sub_spec() -> bool {
        exact::<T>()
    }

    open spec fn sub_req(self, rhs: Vector3<T>) -> bool {
        total::<T>()
    }

    open spec fn sub_spec(self, rhs: Vector3<T>) -> Vector3<T> {
        vminus3(self, rhs)
    }
}

impl<T: Scalar> core::ops::Mul<T> for Vector3<T> {
    type Output = Vector3<T>;

    fn mul(self, rhs: T) -> (r: Vector3<T>)
        ensures
            exact::<T>() ==> r == vscaled3(self, rhs),
    {
        Vector3 { x: self.x * rhs, y: self.y * rhs, z: self.z * rhs }
    }
}

impl<T: Scalar> vstd::std_specs::ops::MulSpecImpl<T> for Vector3<T> {
    open spec fn obeys_mul_spec() -> bool {
        exact::<T>()
    }

    open spec fn mul_req(self, rhs: T) -> bool {
        total::<T>()
    }

    open spec fn mul_spec(self, rhs: T) -> Vector3<T> {
        vscaled3(self, rhs)
    }
}

impl<T: Scalar> core::ops::Div<T> for Vector3<T> {
    type Output = Vector3<T>;

    fn div(self, rhs: T) -> (r: Vector3<T>)
        ensures
            exact::<T>() ==> r == vdivided3(self, rhs),
    {
        Vector3 { x: self.x / rhs, y: self.y / rhs, z: self.z / rhs }
    }
}

impl<T: Scalar> vstd::std_specs::ops::DivSpecImpl<T> for Vector3<T> {
    open spec fn obeys_div_spec() -> bool {
        exact::<T>()
    }

    open spec fn div_req(self, rhs: T) -> bool {
        total::<T>()
    }

    open spec fn div_spec(self, rhs: T) -> Vector3<T> {
        vdivided3(self, rhs)
    }
}

impl<T: Scalar> core::ops::Neg for Vector3<T> {
    type Output = Vector3<T>;

    fn neg(self) -> (r: Vector3<T>)
        ensures
            exact::<T>() ==> r == vnegated3(self),
    {
        Vector3 { x: T::neg(self.x), y: T::neg(self.y), z: T::neg(self.z) }
    }
}

impl<T: Scalar> vstd::std_specs::ops::NegSpecImpl for Vector3<T> {
    open spec fn obeys_neg_spec() -> bool {
        exact::<T>()
    }

    open spec fn neg_req(self) -> bool {
        total::<T>()
    }

    open spec fn neg_spec(self) -> Vector3<T> {
        vnegated3(self)
    }
}

/// A 4-component vector.
#[derive(Clone, Copy, Debug)]
pub struct Vector4<T> {
    pub x: T,
    pub y: T,
    pub z: T,
    pub w: T,
}

/// The field-wise sum.
pub open spec fn vplus4<T: Scalar>(a: Vector4<T>, b: Vector4<T>) -> Vector4<T> {
    Vector4 { x: sadd(a.x, b.x), y: sadd(a.y, b.y), z: sadd(a.z, b.z), w: sadd(a.w, b.w) }
}

/// The field-wise difference.
pub open spec fn vminus4<T: Scalar>(a: Vector4<T>, b: Vector4<T>) -> Vector4<T> {
    Vector4 { x: ssub(a.x, b.x), y: ssub(a.y, b.y), z: ssub(a.z, b.z), w: ssub(a.w, b.w) }
}

/// Every field multiplied by `s`.
pub open spec fn vscaled4<T: Scalar>(v: Vector4<T>, s: T) -> Vector4<T> {
    Vector4 { x: smul(v.x, s), y: smul(v.y, s), z: smul(v.z, s), w: smul(v.w, s) }
}

/// Every field divided by `s`.
pub open spec fn vdivided4<T: Scalar>(v: Vector4<T>, s: T) -> Vector4<T> {
    Vector4 { x: sdiv(v.x, s), y: sdiv(v.y, s), z: sdiv(v.z, s), w: sdiv(v.w, s) }
}

/// Every field negated.
pub open spec fn vnegated4<T: Scalar>(v: Vector4<T>) -> Vector4<T> {
    Vector4 { x: sneg(v.x), y: sneg(v.y), z: sneg(v.z), w: sneg(v.w) }
}

/// The sum of the products of matching fields, in field order.
pub open spec fn dot4<T: Scalar>(a: Vector4<T>, b: Vector4<T>) -> T {
    sadd(sadd(sadd(smul(a.x, b.x), smul(a.y, b.y)), smul(a.z, b.z)), smul(a.w, b.w))
}

impl<T: Scalar> Vector4<T> {
    /// The vector with the given fields.
    pub fn new(x: T, y: T, z: T, w: T) -> (r: Self)
        ensures
            r == (Vector4 { x: x, y: y, z: z, w: w }),
    {
        Vector4 { x: x, y: y, z: z, w: w }
    }

    /// The dot product with `rhs`.
    pub fn dot(&self, rhs: &Self) -> (r: T)
        requires
            total::<T>(),
        ensures
            exact::<T>() ==> r == dot4(*self, *rhs),
    {
        self.x * rhs.x + self.y * rhs.y + self.z * rhs.z + self.w * rhs.w
    }
}

impl<T: Scalar> core::ops::Add<Vector4<T>> for Vector4<T> {
    type Output = Vector4<T>;

    fn add(self, rhs: Vector4<T>) -> (r: Vector4<T>)
        ensures
            exact::<T>() ==> r == vplus4(self, rhs),
    {
        Vector4 { x: self.x + rhs.x, y: self.y + rhs.y, z: self.z + rhs.z, w: self.w + rhs.w }
    }
}

impl<T: Scalar> vstd::std_specs::ops::AddSpecImpl<Vector4<T>> for Vector4<T> {
    open spec fn obeys_add_spec() -> bool {
        exact::<T>()
    }

    open spec fn add_req(self, rhs: Vector4<T>) -> bool {
        total::<T>()
    }

    open spec fn add_spec(self, rhs: Vector4<T>) -> Vector4<T> {
        vplus4(self, rhs)
    }
}

impl<T: Scalar> core::ops::Sub<Vector4<T>> for Vector4<T> {
    type Output = Vector4<T>;

    fn sub(self, rhs: Vector4<T>) -> (r: Vector4<T>)
        ensures
            exact::<T>() ==> r == vminus4(self, rhs),
    {
        Vector4 { x: self.x - rhs.x, y: self.y - rhs.y, z: self.z - rhs.z, w: self.w - rhs.w }
    }
}

impl<T: Scalar> vstd::std_specs::ops::SubSpecImpl<Vector4<T>> for Vector4<T> {
    open spec fn obeys_sub_spec() -> bool {
        exact::<T>()
    }

    open spec fn sub_req(self, rhs: Vector4<T>) -> bool {
        total::<T>()
    }

    open spec fn sub_spec(self, rhs: Vector4<T>) -> Vector4<T> {
        vminus4(self, rhs)
    }
}

impl<T: Scalar> core::ops::Mul<T> for Vector4<T> {
    type Output = Vector4<T>;

    fn mul(self, rhs: T) -> (r: Vector4<T>)
        ensures
            exact::<T>() ==> r == vscaled4(self, rhs),
    {
        Vector4 { x: self.x * rhs, y: self.y * rhs, z: self.z * rhs, w: self.w * rhs }
    }
}

impl<T: Scalar> vstd::std_specs::ops::MulSpecImpl<T> for Vector4<T> {
    open spec fn obeys_mul_spec() -> bool {
        exact::<T>()
    }

    open spec fn mul_req(self, rhs: T) -> bool {
        total::<T>()
    }

    open spec fn mul_spec(self, rhs: T) -> Vector4<T> {
        vscaled4(self, rhs)
    }
}

impl<T: Scalar> core::ops::Div<T> for Vector4<T> {
    type Output = Vector4<T>;

    fn div(self, rhs: T) -> (r: Vector4<T>)
        ensures
            exact::<T>() ==> r == vdivided4(self, rhs),
    {
        Vector4 { x: self.x / rhs, y: self.y / rhs, z: self.z / rhs, w: self.w / rhs }
    }
}

impl<T: Scalar> vstd::std_specs::ops::DivSpecImpl<T> for Vector4<T> {
    open spec fn obeys_div_spec() -> bool {
        exact::<T>()
    }

    open spec fn div_req(self, rhs: T) -> bool {
        total::<T>()
    }

    open spec fn div_spec(self, rhs: T) -> Vector4<T> {
        vdivided4(self, rhs)
    }
}

impl<T: Scalar> core::ops::Neg for Vector4<T> {
    type Output = Vector4<T>;

    fn neg(self) -> (r: Vector4<T>)
        ensures
            exact::<T>() ==> r == vnegated4(self),
    {
        Vector4 { x: T::neg(self.x), y: T::neg(self.y), z: T::neg(self.z), w: T::neg(self.w) }
    }
}

impl<T: Scalar> vstd::std_specs::ops::NegSpecImpl for Vector4<T> {
    open spec fn obeys_neg_spec() -> bool {
        exact::<T>()
    }

    open spec fn neg_req(self) -> bool {
        total::<T>()
    }

    open spec fn neg_spec(self) -> Vector4<T> {
        vnegated4(self)
    }
}

/// The cross product, `a` first: `(a.y b.z - a.z b.y, a.z b.x - a.x b.z, a.x b.y - a.y b.x)`.
pub open spec fn cross3<T: Scalar>(a: Vector3<T>, b: Vector3<T>) -> Vector3<T> {
    Vector3 {
        x: ssub(smul(a.y, b.z), smul(a.z, b.y)),
        y: ssub(smul(a.z, b.x), smul(a.x, b.z)),
        z: ssub(smul(a.x, b.y), smul(a.y, b.x)),
    }
}

/// A vector times a matrix on its right: field `i` of the result sums
/// `v`'s `k`-th field times `m.field(i, k)` over `k` in increasing order.
pub open spec fn transform3<T: Scalar>(v: Vector3<T>, m: Matrix3x3<T>) -> Vector3<T> {
    Vector3 {
        x: sadd(sadd(smul(v.x, m.c00), smul(v.y, m.c01)), smul(v.z, m.c02)),
        y: sadd(sadd(smul(v.x, m.c10), smul(v.y, m.c11)), smul(v.z, m.c12)),
        z: sadd(sadd(smul(v.x, m.c20), smul(v.y, m.c21)), smul(v.z, m.c22)),
    }
}

/// A vector times a matrix on its right, as for [`transform3`].
pub open spec fn transform4<T: Scalar>(v: Vector4<T>, m: Matrix4x4<T>) -> Vector4<T> {
    Vector4 {
        x: sadd(sadd(sadd(smul(v.x, m.c00), smul(v.y, m.c01)), smul(v.z, m.c02)), smul(v.w, m.c03)),
        y: sadd(sadd(sadd(smul(v.x, m.c10), smul(v.y, m.c11)), smul(v.z, m.c12)), smul(v.w, m.c13)),
        z: sadd(sadd(sadd(smul(v.x, m.c20), smul(v.y, m.c21)), smul(v.z, m.c22)), smul(v.w, m.c23)),
        w: sadd(sadd(sadd(smul(v.x, m.c30), smul(v.y, m.c31)), smul(v.z, m.c32)), smul(v.w, m.c33)),
    }
}

/// The point `v` in homogeneous form: `w` is one.
pub open spec fn extend<T: Scalar>(v: Vector3<T>) -> Vector4<T> {
    Vector4 { x: v.x, y: v.y, z: v.z, w: lit::<T>(1) }
}

/// The first three fields divided by `w`.
pub open spec fn project<T: Scalar>(v: Vector4<T>) -> Vector3<T> {
    Vector3 { x: sdiv(v.x, v.w), y: sdiv(v.y, v.w), z: sdiv(v.z, v.w) }
}

/// A point moved through a 4 x 4 transform: extended with `w` one,
/// multiplied, and divided back by the resulting `w`.
pub open spec fn transform_point<T: Scalar>(v: Vector3<T>, m: Matrix4x4<T>) -> Vector3<T> {
    project(transform4(extend(v), m))
}

impl<T: Scalar> Vector3<T> {
    /// The cross product with `rhs`, this vector first.
    pub fn cross(&self, rhs: &Self) -> (r: Self)
        requires
            total::<T>(),
        ensures
            exact::<T>() ==> r == cross3(*self, *rhs),
    {
        Vector3 {
            x: self.y * rhs.z - self.z * rhs.y,
            y: self.z * rhs.x - self.x * rhs.z,
            z: self.x * rhs.y - self.y * rhs.x,
        }
    }

    /// The first three fields of `v`, each divided by its `w`.
    pub fn from_homogeneous(v: Vector4<T>) -> (r: Self)
        requires
            total::<T>(),
        ensures
            exact::<T>() ==> r == project(v),
    {
        Vector3 { x: v.x / v.w, y: v.y / v.w, z: v.z / v.w }
    }
}

impl<T: Scalar> core::convert::From<Vector3<T>> for Vector4<T> {
    fn from(v: Vector3<T>) -> (r: Vector4<T>)
        ensures
            exact::<T>() ==> r == extend(v),
    {
        Vector4 { x: v.x, y: v.y, z: v.z, w: one::<T>() }
    }
}

impl<T: Scalar> vstd::std_specs::convert::FromSpecImpl<Vector3<T>> for Vector4<T> {
    open spec fn obeys_from_spec() -> bool {
        exact::<T>()
    }

    open spec fn from_spec(v: Vector3<T>) -> Vector4<T> {
        extend(v)
    }
}

impl<T: Scalar> core::ops::Mul<Matrix3x3<T>> for Vector3<T> {
    type Output = Vector3<T>;

    fn mul(self, rhs: Matrix3x3<T>) -> (r: Vector3<T>)
        ensures
            exact::<T>() ==> r == transform3(self, rhs),
    {
        Vector3 {
            x: self.x * rhs.c00 + self.y * rhs.c01 + self.z * rhs.c02,
            y: self.x * rhs.c10 + self.y * rhs.c11 + self.z * rhs.c12,
            z: self.x * rhs.c20 + self.y * rhs.c21 + self.z * rhs.c22,
        }
    }
}

impl<T: Scalar> vstd::std_specs::ops::MulSpecImpl<Matrix3x3<T>> for Vector3<T> {
    open spec fn obeys_mul_spec() -> bool {
        exact::<T>()
    }

    open spec fn mul_req(self, rhs: Matrix3x3<T>) -> bool {
        total::<T>()
    }

    open spec fn mul_spec(self, rhs: Matrix3x3<T>) -> Vector3<T> {
        transform3(self, rhs)
    }
}

impl<T: Scalar> core::ops::Mul<Matrix4x4<T>> for Vector4<T> {
    type Output = Vector4<T>;

    fn mul(self, rhs: Matrix4x4<T>) -> (r: Vector4<T>)
        ensures
            exact::<T>() ==> r == transform4(self, rhs),
    {
        Vector4 {
            x: self.x * rhs.c00 + self.y * rhs.c01 + self.z * rhs.c02 + self.w * rhs.c03,
            y: self.x * rhs.c10 + self.y * rhs.c11 + self.z * rhs.c12 + self.w * rhs.c13,
            z: self.x * rhs.c20 + self.y * rhs.c21 + self.z * rhs.c22 + self.w * rhs.c23,
            w: self.x * rhs.c30 + self.y * rhs.c31 + self.z * rhs.c32 + self.w * rhs.c33,
        }
    }
}

impl<T: Scalar> vstd::std_specs::ops::MulSpecImpl<Matrix4x4<T>> for Vector4<T> {
    open spec fn obeys_mul_spec() -> bool {
        exact::<T>()
    }

    open spec fn mul_req(self, rhs: Matrix4x4<T>) -> bool {
        total::<T>()
    }

    open spec fn mul_spec(self, rhs: Matrix4x4<T>) -> Vector4<T> {
        transform4(self, rhs)
    }
}

impl<T: Scalar> core::ops::Mul<Matrix4x4<T>> for Vector3<T> {
    type Output = Vector3<T>;

    fn mul(self, rhs: Matrix4x4<T>) -> (r: Vector3<T>)
        ensures
            exact::<T>() ==> r == transform_point(self, rhs),
    {
        Vector3::from_homogeneous(Vector4::from(self) * rhs)
    }
}

impl<T: Scalar> vstd::std_specs::ops::MulSpecImpl<Matrix4x4<T>> for Vector3<T> {
    open spec fn obeys_mul_spec() -> bool {
        exact::<T>()
    }

    open spec fn mul_req(self, rhs: Matrix4x4<T>) -> bool {
        total::<T>()
    }

    open spec fn mul_spec(self, rhs: Matrix4x4<T>) -> Vector3<T> {
        transform_point(self, rhs)
    }
}

} // verus!
