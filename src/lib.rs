//! Two- and three-dimensional vectors of `i64` components: componentwise
//! arithmetic, dot and cross products, and a textual form, each proved
//! against a model over mathematical integers.
pub mod scalar;
pub mod vec2;
pub mod vec3;

pub use vec2::Vec2;
pub use vec3::Vec3;
