//! Algorithms that modify or transform images.
//!
//! Functions with a `_range` suffix work on given areas of the images; those
//! with a `_new` suffix create their output as a new `ImgBuf`.

pub mod convolution;
pub mod map;
pub mod mirror;
pub mod resize;
pub mod update;

pub use convolution::{
    convolution_operator, create_filter_plan, horizontal_filter, horizontal_filter_range, vertical_filter,
    vertical_filter_range, Convolution, FilterError, FilterIteration, Pixel, TapOperator,
};
pub use self::map::{map_new, map_range};
pub use mirror::{mirror_horizontal_new, mirror_vertical_new};
pub use update::{update, update_range};
