//! Raster buffers, region algebra and boundary-replicating separable filters.
//!
//! Images are read through the `Img` trait and written through `ImgMut`;
//! `ImgBuf` is the in-memory implementation. The `filter` module holds the
//! algorithms, among them horizontal and vertical convolution passes that
//! treat the input as infinite by replicating its edge pixels.

pub mod filter;
pub mod geometry;
pub mod image;
mod slices;

pub use geometry::{ImageMapping, ImgRange, Point, Range, Range2d, Vec2d};
pub use image::{Img, ImgBuf, ImgBufLayout, ImgMut, ImgSize, LayoutError};
