//! Basic geometric primitives describing sizes, positions and areas.

pub mod mapping;
pub mod point;
pub mod range;
pub mod range2d;
pub mod vec2d;

pub use point::Point;
pub use range::Range;
pub use range2d::{ImgRange, Range2d};
pub use vec2d::Vec2d;
pub use mapping::ImageMapping;
