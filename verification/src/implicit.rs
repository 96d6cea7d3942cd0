//! Concrete implicit primitives.
pub mod gyroid;
