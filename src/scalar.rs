//! The scalar type that every vector, matrix and quaternion is built from.
//!
//! The kernel is generic over any type with std's arithmetic operators, and
//! states its results through the specifications vstd gives those operators:
//! `sadd(a, b)` is what `a + b` returns, and so on. Two conditions frame every
//! contract. [`total`] asks that the operators accept every operand, as
//! floating point does; [`exact`] says that they return what their
//! specification names, and guards every `ensures` about a computed value.
use vstd::prelude::*;
use vstd::std_specs::ops::{AddSpec, SubSpec, MulSpec, DivSpec, NegSpec};
use vstd::std_specs::convert::FromSpec;
use vstd::std_specs::cmp::PartialOrdSpec;

verus! {

/// A copyable number with the four field operations, negation, small integer
/// constants and a partial order. Every type with these has it.
pub trait Scalar:
    Copy
    + core::ops::Add<Output = Self>
    + core::ops::Sub<Output = Self>
    + core::ops::Mul<Output = Self>
    + core::ops::Div<Output = Self>
    + core::ops::Neg<Output = Self>
    + core::convert::From<u8>
    + core::cmp::PartialOrd {

}

impl<T> Scalar for T where
    T: Copy
        + core::ops::Add<Output = T>
        + core::ops::Sub<Output = T>
        + core::ops::Mul<Output = T>
        + core::ops::Div<Output = T>
        + core::ops::Neg<Output = T>
        + core::convert::From<u8>
        + core::cmp::PartialOrd,
 {

}

/// Every operation is defined on every pair of operands.
pub open spec fn total<T: Scalar>() -> bool {
    &&& forall|a: T, b: T| #[trigger] a.add_req(b)
    &&& forall|a: T, b: T| #[trigger] a.sub_req(b)
    &&& forall|a: T, b: T| #[trigger] a.mul_req(b)
    &&& forall|a: T, b: T| #[trigger] a.div_req(b)
    &&& forall|a: T| #[trigger] a.neg_req()
}

/// Every operation returns the value its specification names.
pub open spec fn exact<T: Scalar>() -> bool {
    &&& T::obeys_add_spec()
    &&& T::obeys_sub_spec()
    &&& T::obeys_mul_spec()
    &&& T::obeys_div_spec()
    &&& T::obeys_neg_spec()
    &&& T::obeys_from_spec()
    &&& T::obeys_partial_cmp_spec()
}

/// What `a + b` returns.
pub open spec fn sadd<T: Scalar>(a: T, b: T) -> T {
    a.add_spec(b)
}

/// What `a - b` returns.
pub open spec fn ssub<T: Scalar>(a: T, b: T) -> T {
    a.sub_spec(b)
}

/// What `a * b` returns.
pub open spec fn smul<T: Scalar>(a: T, b: T) -> T {
    a.mul_spec(b)
}

/// What `a / b` returns.
pub open spec fn sdiv<T: Scalar>(a: T, b: T) -> T {
    a.div_spec(b)
}

/// What `-a` returns.
pub open spec fn sneg<T: Scalar>(a: T) -> T {
    a.neg_spec()
}

/// What `T::from(n)` returns: the small integer `n` in the scalar type.
pub open spec fn lit<T: Scalar>(n: u8) -> T {
    T::from_spec(n)
}

/// The identities of zero and one that exact arithmetic has. Floating point
/// breaks some of them at infinities and NaN, so they are a hypothesis of the
/// laws that need them, never assumed.
pub open spec fn unital<T: Scalar>() -> bool {
    &&& forall|a: T| #[trigger] smul(a, lit::<T>(1)) == a
    &&& forall|a: T| #[trigger] smul(lit::<T>(1), a) == a
    &&& forall|a: T| #[trigger] smul(a, lit::<T>(0)) == lit::<T>(0)
    &&& forall|a: T| #[trigger] smul(lit::<T>(0), a) == lit::<T>(0)
    &&& forall|a: T| #[trigger] sadd(a, lit::<T>(0)) == a
    &&& forall|a: T| #[trigger] sadd(lit::<T>(0), a) == a
    &&& forall|a: T| #[trigger] ssub(a, lit::<T>(0)) == a
    &&& forall|a: T| #[trigger] sdiv(a, lit::<T>(1)) == a
    &&& sneg(lit::<T>(0)) == lit::<T>(0)
}

/// `h` carries the scalar type one to one into the integers, and its
/// addition, subtraction, multiplication and negation into those of the
/// integers: the type computes as the integers do. Laws that hold of exact
/// arithmetic only take this as their hypothesis.
pub open spec fn integer_model<T: Scalar>(h: spec_fn(T) -> int) -> bool {
    &&& forall|a: T, b: T| #[trigger] h(sadd(a, b)) == h(a) + h(b)
    &&& forall|a: T, b: T| #[trigger] h(ssub(a, b)) == h(a) - h(b)
    &&& forall|a: T, b: T| #[trigger] h(smul(a, b)) == h(a) * h(b)
    &&& forall|a: T| #[trigger] h(sneg(a)) == -h(a)
    &&& h(lit::<T>(0)) == 0
    &&& h(lit::<T>(1)) == 1
    &&& forall|a: T, b: T| #![trigger h(a), h(b)] h(a) == h(b) ==> a == b
}

/// `a >= b` under the order's specification.
pub open spec fn sge<T: Scalar>(a: T, b: T) -> bool {
    a.partial_cmp_spec(&b) matches Some(core::cmp::Ordering::Greater | core::cmp::Ordering::Equal)
}

/// `a > b` under the order's specification.
pub open spec fn sgt<T: Scalar>(a: T, b: T) -> bool {
    a.partial_cmp_spec(&b) == Some(core::cmp::Ordering::Greater)
}

/// Zero in the scalar type.
pub fn zero<T: Scalar>() -> (r: T)
    ensures
        exact::<T>() ==> r == lit::<T>(0),
{
    T::from(0u8)
}

/// One in the scalar type.
pub fn one<T: Scalar>() -> (r: T)
    ensures
        exact::<T>() ==> r == lit::<T>(1),
{
    T::from(1u8)
}

} // verus!
