//! A small linear-algebra kernel for real-time graphics: vectors, square
//! matrices and rotation quaternions over a scalar type supplied by the caller.
//!
//! The coordinate system is left-handed with y up. A vector is multiplied on
//! the left of a matrix, so transforms compose in reading order: scale, then
//! rotate, then translate is `v * scale * rotation * translation`.
//!
//! Every result is stated exactly, as the expression over the scalar type's
//! own operations that it evaluates, in the order it evaluates them.

use vstd::prelude::*;

pub mod angle;
mod integers;
pub mod laws;
pub mod matrix;
pub mod quaternion;
pub mod scalar;
pub mod vector;

pub use angle::{Degrees, Radians};

verus! {

} // verus!
