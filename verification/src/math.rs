//! Vectors, quaternions, matrices and affine transforms.

pub mod affine2;
pub mod affine3;
pub mod constants;
pub mod matrix2;
pub mod matrix3;
pub mod quaternion;
pub mod transform3;
pub mod vector2;
pub mod vector3;

pub use affine2::Affine2;
pub use affine3::Affine3;
pub use constants::{x_axis, y_axis, z_axis};
pub use matrix2::Matrix2;
pub use matrix3::Matrix3;
pub use quaternion::Quaternion;
pub use transform3::Transform3;
pub use vector2::Vector2;
pub use vector3::Vector3;
