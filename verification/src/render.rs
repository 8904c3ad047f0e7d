//! The scene description: shapes, materials and positioned instances.

pub mod color;
pub mod id;
pub mod instance;
pub mod material;
pub mod renderable;
pub mod shape;
pub mod table;
pub mod transform;

pub use color::Color;
pub use id::{ImageId, MaterialId, Shape3dId, ShapeId};
pub use instance::{Instance, Positioned};
pub use material::{AlphaMode, Face, Material, OpaqueRendererMethod, ParallaxMappingMethod, UvChannel};
pub use renderable::Renderable;
pub use shape::{Circle, Cuboid, Shape2d, ShapeEnum};
pub use table::Table;
pub use transform::Transform;
