//! Angles in radians and in degrees.
use vstd::prelude::*;
use crate::scalar::{Scalar, total, exact, smul, sdiv, lit};

verus! {

/// An angle in radians.
#[derive(Clone, Copy, Debug)]
pub struct Radians<T>(pub T);

/// An angle in degrees.
#[derive(Clone, Copy, Debug)]
pub struct Degrees<T>(pub T);

impl<T: Scalar> Radians<T> {
    /// The angle `degrees` in radians: `degrees * pi / 180`, where `pi` is
    /// the scalar type's value of π.
    pub fn from_degrees(degrees: Degrees<T>, pi: T) -> (r: Self)
        requires
            total::<T>(),
        ensures
            exact::<T>() ==> r.0 == sdiv(smul(degrees.0, pi), lit::<T>(180)),
    {
        Radians(degrees.0 * pi / T::from(180u8))
    }
}

impl<T: Scalar> Degrees<T> {
    /// The angle `radians` in degrees: `radians * 180 / pi`, where `pi` is
    /// the scalar type's value of π.
    pub fn from_radians(radians: Radians<T>, pi: T) -> (r: Self)
        requires
            total::<T>(),
        ensures
            exact::<T>() ==> r.0 == sdiv(smul(radians.0, lit::<T>(180)), pi),
    {
        Degrees(radians.0 * T::from(180u8) / pi)
    }
}

impl<T: Scalar> core::convert::From<T> for Radians<T> {
    fn from(radians: T) -> (r: Radians<T>)
        ensures
            r.0 == radians,
    {
        Radians(radians)
    }
}

impl<T: Scalar> vstd::std_specs::convert::FromSpecImpl<T> for Radians<T> {
    open spec fn obeys_from_spec() -> bool {
        true
    }

    open spec fn from_spec(radians: T) -> Radians<T> {
        Radians(radians)
    }
}

impl<T: Scalar> core::convert::From<T> for Degrees<T> {
    fn from(degrees: T) -> (r: Degrees<T>)
        ensures
            r.0 == degrees,
    {
        Degrees(degrees)
    }
}

impl<T: Scalar> vstd::std_specs::convert::FromSpecImpl<T> for Degrees<T> {
    open spec fn obeys_from_spec() -> bool {
        true
    }

    open spec fn from_spec(degrees: T) -> Degrees<T> {
        Degrees(degrees)
    }
}

} // verus!
