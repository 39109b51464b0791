//! In-memory image buffers and the traits through which filters read and write images.

pub mod buffer;
pub mod dimensions;
pub mod traits;

pub use buffer::ImgBuf;
pub use dimensions::{ImgBufLayout, LayoutError};
pub use traits::{spec_img_range, Img, ImgMut, ImgSize};
