//! Separable convolution: per-tap plans and the horizontal and vertical passes.

pub mod horizontal;
pub mod line;
pub mod operator;
pub mod plan;
pub mod vertical;

pub use horizontal::{horizontal_filter, horizontal_filter_range};
pub use operator::{convolution_operator, Convolution, Pixel, TapOperator};
pub use plan::{create_filter_plan, FilterError, FilterIteration};
pub use vertical::{vertical_filter, vertical_filter_range};
