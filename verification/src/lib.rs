//! Integer vectors and half-open integer boxes for grid and tile arithmetic.
//!
//! Every function states what it returns, over mathematical integers, and the
//! statements are proved: no operation overflows, divides by zero or panics
//! on an input that its precondition allows.

pub mod aabb;
pub mod arith;
pub mod color;
pub mod vector;

pub use aabb::Aabb2i;
pub use vector::{Vec2i, Vec3i};
