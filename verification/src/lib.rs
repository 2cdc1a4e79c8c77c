//! A small linear-algebra core for a real-time rendering demo: vectors and
//! matrices of IEEE 754 binary32 components, transform helpers, and the thin
//! scene/camera/mesh data layer around them.
//!
//! Every scalar is carried as its bit pattern (a `u32`), so that the numeric
//! behaviour of the underlying binary32 operations can be named and reasoned
//! about exactly, without any tolerance or rounding model of our own.

pub mod camera;
pub mod matrix2;
pub mod matrix3;
pub mod matrix4;
pub mod model;
pub mod resources;
pub mod scalar;
pub mod scene;
pub mod transform;
pub mod vector2;
pub mod vector3;
pub mod vector4;

pub use matrix2::Matrix2;
pub use matrix3::Matrix3;
pub use matrix4::Matrix4;
pub use scalar::F_ONE;
pub use scalar::F_ZERO;
pub use transform::checked_look_at;
pub use transform::look_at;
pub use transform::rotate;
pub use transform::scale;
pub use transform::translate;
pub use vector2::Vector2;
pub use vector3::Vector3;
pub use vector4::Vector4;
