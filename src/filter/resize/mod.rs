//! Changing the resolution of images.

mod nearest;

pub use nearest::{resize_nearest_new, scale_index_table};
