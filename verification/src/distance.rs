//! The values that a field is sampled to.
//!
//! Both are thin wrappers. They exist so that a field sample cannot be passed
//! where a raw number or a raw vector is expected, or one kind of sample where
//! the other is: the underlying value has to be taken out by name.
use crate::math::Vec3;
use vstd::prelude::*;

verus! {

/// A sample of a scalar field.
///
/// By convention the value is negative inside the solid, zero on its boundary
/// and positive outside. It is not a Euclidean distance unless the field that
/// produced it promises one. Any number may be wrapped.
#[derive(Clone, Copy, Debug, PartialEq)]
pub struct Signed<T>(pub T);

/// A sample of a vector field.
///
/// The direction is what carries meaning; the length is not normalised. Any
/// vector may be wrapped.
#[derive(Clone, Copy, Debug, PartialEq)]
pub struct Directed<T>(pub Vec3<T>);

impl<T> Signed<T> {
    /// Wraps `value` as a field sample.
    pub fn new(value: T) -> (s: Self)
        ensures
            s == Signed(value),
    {
        Signed(value)
    }

    /// Takes the number out of the sample.
    pub fn value(self) -> (v: T)
        ensures
            v == self.0,
    {
        self.0
    }
}

impl<T> Directed<T> {
    /// Wraps `vector` as a field sample.
    pub fn new(vector: Vec3<T>) -> (d: Self)
        ensures
            d == Directed(vector),
    {
        Directed(vector)
    }

    /// Takes the vector out of the sample.
    pub fn vector(self) -> (v: Vec3<T>)
        ensures
            v == self.0,
    {
        self.0
    }
}

} // verus!
