use super::ImgSize;
use vstd::prelude::*;

verus! {

/// Memory layout of an `ImgBuf`: its size and its row stride.
#[derive(Clone, Copy, PartialEq, Eq, Hash, Debug)]
pub struct ImgBufLayout {
    /// Image width and height.
    pub size: ImgSize,
    /// Number of pixels allocated for each line, at least the width, so that
    /// lines can be aligned.
    pub stride: usize,
}

/// Why pixel data cannot back an image of a given layout.
#[derive(Clone, Copy, PartialEq, Eq, Hash, Debug)]
pub enum LayoutError {
    /// The data has `data_size` pixels where the layout needs `stride * height`.
    DataLength { data_size: usize, layout: ImgBufLayout },
    /// The stride of the layout is smaller than its width.
    StrideTooSmall { layout: ImgBufLayout },
}

impl ImgBufLayout {
    /// Number of pixels the layout allocates: `stride * height`.
    pub open spec fn spec_data_length(&self) -> int {
        self.size.y * self.stride
    }

    /// Number of pixels the layout allocates.
    pub fn data_length(&self) -> (r: usize)
        requires
            self.spec_data_length() <= usize::MAX,
        ensures
            r == self.spec_data_length(),
    {
        self.size.y * self.stride
    }

    /// Checks that `data_size` pixels are exactly what the layout allocates.
    pub fn assert_data_size_correct(&self, data_size: usize) -> (r: Result<(), LayoutError>)
        ensures
            r is Ok <==> self.spec_data_length() == data_size,
            r is Err ==> r == Err::<(), LayoutError>(LayoutError::DataLength { data_size, layout: *self }),
    {
        match self.size.y.checked_mul(self.stride) {
            Some(length) if length == data_size => Ok(()),
            _ => Err(LayoutError::DataLength { data_size, layout: *self }),
        }
    }
}

} // verus!
