//! Axis-aligned boxes over the integer grid.

pub mod aabb2i;
pub mod aabb2i_laws;

pub use aabb2i::Aabb2i;
