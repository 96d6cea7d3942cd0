//! Implicit geometry fields: functions from a point in space to a signed
//! value that is negative inside a solid, zero on its boundary and positive
//! outside, together with the surface normal that such a field induces.
//!
//! The crate is generic over the number type `T` that coordinates and field
//! values are made of. Everything it computes is built from the operators
//! `+`, `-`, `*` and `/` of `T`, and every contract is stated over the
//! specifications that `T` gives to those operators.
//!
//! * [`math`]: what is asked of a number type, its sine and cosine, and the
//!   three-component vector.
//! * [`distance`]: the value wrappers that keep field samples apart from raw
//!   numbers.
//! * [`source`]: the capability interfaces of a field, and the adapter that
//!   derives normals from any scalar field by central differences.
//! * [`implicit`]: concrete primitives.
pub mod math;
pub mod distance;
pub mod source;
pub mod implicit;
