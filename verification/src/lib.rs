//! A parametric solid-modelling kernel: exact decimal numbers, physical
//! quantities, 3-D transform algebra, product trees and an asset cache.

pub mod number;
pub mod unit;
pub mod math;
pub mod render;
pub mod product;
pub mod assets;
pub mod scene;
