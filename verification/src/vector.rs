//! Fixed-size integer vectors.

pub mod vec2i;
pub mod vec2i_convert;
pub mod vec2i_fold;
pub mod vec2i_laws;
pub mod vec2i_ops;
pub mod vec3i;
pub mod vec3i_convert;
pub mod vec3i_fold;
pub mod vec3i_laws;
pub mod vec3i_ops;

pub use vec2i::Vec2i;
pub use vec3i::Vec3i;
