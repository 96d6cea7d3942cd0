//! Number types, functions of a number, and the three-component vector.
use core::ops::Add;
use core::ops::Div;
use core::ops::Mul;
use core::ops::Sub;
use vstd::prelude::*;
use vstd::std_specs::ops::AddSpec;
use vstd::std_specs::ops::DivSpec;
use vstd::std_specs::ops::MulSpec;
use vstd::std_specs::ops::SubSpec;

verus! {

/// A number type that fields can be evaluated over: a copyable type that is
/// closed under the four arithmetic operators.
///
/// The trait has no items of its own and holds of every such type.
pub trait Number: Copy + Add<Output = Self> + Sub<Output = Self> + Mul<Output = Self> + Div<
    Output = Self,
> {

}

impl<T> Number for T where
    T: Copy + Add<Output = T> + Sub<Output = T> + Mul<Output = T> + Div<Output = T>,
 {

}

/// The four operators of `T` accept every pair of operands: no sum,
/// difference, product or quotient can fail.
pub open spec fn total_arithmetic<T: Number>() -> bool {
    &&& forall|a: T, b: T| #[trigger] a.add_req(b)
    &&& forall|a: T, b: T| #[trigger] a.sub_req(b)
    &&& forall|a: T, b: T| #[trigger] a.mul_req(b)
    &&& forall|a: T, b: T| #[trigger] a.div_req(b)
}

/// The four operators of `T` return what their specifications say, so that
/// each result is a function of the operands alone.
pub open spec fn exact_arithmetic<T: Number>() -> bool {
    &&& T::obeys_add_spec()
    &&& T::obeys_sub_spec()
    &&& T::obeys_mul_spec()
    &&& T::obeys_div_spec()
}

/// The sine and the cosine of a number type.
///
/// The two are not among the operators of a [`Number`], so a field that is
/// made of waves is handed them in a value of this trait. Nothing is asked
/// of an implementor here. A field says for itself what it needs of its
/// waves, in terms of [`pure_waves`], [`sine_of`] and [`cosine_of`].
pub trait Waves<T> {
    /// The sine of `x`.
    fn sine(&self, x: T) -> T;

    /// The cosine of `x`.
    fn cosine(&self, x: T) -> T;
}

/// Sine and cosine are functions of the number alone: whatever two calls of
/// one of them on the same number return is the same.
pub open spec fn pure_waves<T, W: Waves<T>>(waves: &W) -> bool {
    &&& forall|x: T, a: T, b: T|
        #![trigger call_ensures(W::sine, (waves, x), a), call_ensures(W::sine, (waves, x), b)]
        call_ensures(W::sine, (waves, x), a) && call_ensures(W::sine, (waves, x), b) ==> a == b
    &&& forall|x: T, a: T, b: T|
        #![trigger call_ensures(W::cosine, (waves, x), a), call_ensures(W::cosine, (waves, x), b)]
        call_ensures(W::cosine, (waves, x), a) && call_ensures(W::cosine, (waves, x), b) ==> a
            == b
}

/// The sine of `x`: what a call of `waves.sine` on `x` returns.
pub open spec fn sine_of<T, W: Waves<T>>(waves: &W, x: T) -> T {
    choose|y: T| call_ensures(W::sine, (waves, x), y)
}

/// The cosine of `x`: what a call of `waves.cosine` on `x` returns.
pub open spec fn cosine_of<T, W: Waves<T>>(waves: &W, x: T) -> T {
    choose|y: T| call_ensures(W::cosine, (waves, x), y)
}

/// One of the three coordinate axes.
#[derive(Clone, Copy, Debug, PartialEq, Eq)]
pub enum Axis {
    X,
    Y,
    Z,
}

/// A point or a direction in space: the components `(x, y, z)`.
#[derive(Clone, Copy, Debug, PartialEq)]
pub struct Vec3<T> {
    pub x: T,
    pub y: T,
    pub z: T,
}

impl<T: Number> Vec3<T> {
    /// The vector with the given components.
    pub fn new(x: T, y: T, z: T) -> (v: Self)
        ensures
            v == (Vec3 { x, y, z }),
    {
        Vec3 { x, y, z }
    }

    /// The component of this vector on `axis`.
    pub open spec fn along(self, axis: Axis) -> T {
        match axis {
            Axis::X => self.x,
            Axis::Y => self.y,
            Axis::Z => self.z,
        }
    }

    /// This vector with its component on `axis` set to `value`.
    pub open spec fn replaced(self, axis: Axis, value: T) -> Self {
        match axis {
            Axis::X => Vec3 { x: value, y: self.y, z: self.z },
            Axis::Y => Vec3 { x: self.x, y: value, z: self.z },
            Axis::Z => Vec3 { x: self.x, y: self.y, z: value },
        }
    }

    /// This point moved by `step` in the positive direction of `axis`.
    pub open spec fn ahead(self, axis: Axis, step: T) -> Self {
        self.replaced(axis, self.along(axis).add_spec(step))
    }

    /// This point moved by `step` in the negative direction of `axis`.
    pub open spec fn behind(self, axis: Axis, step: T) -> Self {
        self.replaced(axis, self.along(axis).sub_spec(step))
    }

    /// Reads the component on `axis`.
    pub fn component(&self, axis: Axis) -> (c: T)
        ensures
            c == self.along(axis),
    {
        match axis {
            Axis::X => self.x,
            Axis::Y => self.y,
            Axis::Z => self.z,
        }
    }

    /// Returns this vector with its component on `axis` set to `value`; the
    /// other two components are kept.
    pub fn with_component(self, axis: Axis, value: T) -> (v: Self)
        ensures
            v == self.replaced(axis, value),
    {
        match axis {
            Axis::X => Vec3 { x: value, y: self.y, z: self.z },
            Axis::Y => Vec3 { x: self.x, y: value, z: self.z },
            Axis::Z => Vec3 { x: self.x, y: self.y, z: value },
        }
    }

    /// Moves this point by `step` in the positive direction of `axis`.
    ///
    /// Only the component on `axis` changes, whatever `T` is; where the
    /// arithmetic of `T` is exact, the result is `self.ahead(axis, step)`.
    pub fn step_ahead(self, axis: Axis, step: T) -> (v: Self)
        requires
            total_arithmetic::<T>(),
        ensures
            forall|other: Axis| other != axis ==> v.along(other) == self.along(other),
            exact_arithmetic::<T>() ==> v == self.ahead(axis, step),
    {
        let moved = self.component(axis) + step;
        self.with_component(axis, moved)
    }

    /// Moves this point by `step` in the negative direction of `axis`.
    ///
    /// Only the component on `axis` changes, whatever `T` is; where the
    /// arithmetic of `T` is exact, the result is `self.behind(axis, step)`.
    pub fn step_behind(self, axis: Axis, step: T) -> (v: Self)
        requires
            total_arithmetic::<T>(),
        ensures
            forall|other: Axis| other != axis ==> v.along(other) == self.along(other),
            exact_arithmetic::<T>() ==> v == self.behind(axis, step),
    {
        let moved = self.component(axis) - step;
        self.with_component(axis, moved)
    }
}

} // verus!
