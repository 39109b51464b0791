use super::{ImgBufLayout, Img, ImgMut, ImgSize, LayoutError};
use crate::slices::{part, part_mut, spliced};
use vstd::prelude::*;

verus! {

/// Pixels of an image stored line after line in one block of memory, with
/// `stride` pixels allocated for each line.
#[derive(Clone, PartialEq, Eq, Hash, Debug)]
pub struct ImgBuf<T> {
    dimensions: ImgBufLayout,
    pixels: Vec<T>,
}

/// Whether `pixels` pixels fit a layout with stride at least the width.
pub open spec fn layout_holds(layout: ImgBufLayout, pixels: int) -> bool {
    layout.stride >= layout.size.x && pixels == layout.size.y * layout.stride
}

/// Line `y` of pixel data with the given layout.
pub open spec fn layout_line<T>(layout: ImgBufLayout, pixels: Seq<T>, y: int) -> Seq<T> {
    Seq::new(layout.size.x as nat, |x: int| pixels[y * layout.stride + x])
}

proof fn lemma_line_bounds(layout: ImgBufLayout, y: int)
    requires
        layout.stride >= layout.size.x,
        0 <= y < layout.size.y,
    ensures
        0 <= y * layout.stride,
        y * layout.stride + layout.size.x <= (y + 1) * layout.stride,
        (y + 1) * layout.stride <= layout.size.y * layout.stride,
{
    assert(y * layout.stride + layout.stride == (y + 1) * layout.stride) by (nonlinear_arith);
    assert((y + 1) * layout.stride <= layout.size.y * layout.stride) by (nonlinear_arith)
        requires
            y + 1 <= layout.size.y,
            0 <= layout.stride,
    ;
    assert(0 <= y * layout.stride) by (nonlinear_arith)
        requires
            0 <= y,
            0 <= layout.stride,
    ;
}

/// Replacing the positions of line `y` in the pixel data replaces that line
/// and no other.
proof fn lemma_line_replaced<T>(layout: ImgBufLayout, pixels: Seq<T>, y: int)
    requires
        layout_holds(layout, pixels.len() as int),
        0 <= y < layout.size.y,
    ensures
        forall|line: Seq<T>|
            line.len() == layout.size.x ==> {
                let s = #[trigger] spliced(pixels, y * layout.stride, y * layout.stride + layout.size.x, line);
                &&& layout_holds(layout, s.len() as int)
                &&& Seq::new(layout.size.y as nat, |k: int| layout_line(layout, s, k))
                    == Seq::new(layout.size.y as nat, |k: int| layout_line(layout, pixels, k)).update(y, line)
            },
{
    lemma_line_bounds(layout, y);
    assert forall|line: Seq<T>| line.len() == layout.size.x implies {
        let s = #[trigger] spliced(pixels, y * layout.stride, y * layout.stride + layout.size.x, line);
        &&& layout_holds(layout, s.len() as int)
        &&& Seq::new(layout.size.y as nat, |k: int| layout_line(layout, s, k))
            == Seq::new(layout.size.y as nat, |k: int| layout_line(layout, pixels, k)).update(y, line)
    } by {
        let s = spliced(pixels, y * layout.stride, y * layout.stride + layout.size.x, line);
        let a = Seq::new(layout.size.y as nat, |k: int| layout_line(layout, s, k));
        let b = Seq::new(layout.size.y as nat, |k: int| layout_line(layout, pixels, k)).update(y, line);
        assert forall|k: int| 0 <= k < layout.size.y implies #[trigger] a[k] == b[k] by {
            lemma_line_bounds(layout, k);
            if k < y {
                assert((k + 1) * layout.stride <= y * layout.stride) by (nonlinear_arith)
                    requires k + 1 <= y, 0 <= layout.stride;
            } else if k > y {
                assert((y + 1) * layout.stride <= k * layout.stride) by (nonlinear_arith)
                    requires y + 1 <= k, 0 <= layout.stride;
            }
            assert(a[k] =~= b[k]);
        }
        assert(a =~= b);
    }
}

/// Mutable access to positions `[start, end)` of a vector.
fn slice_part_mut<T>(pixels: &mut Vec<T>, start: usize, end: usize) -> (r: &mut [T])
    requires
        start <= end <= old(pixels)@.len(),
    ensures
        r@ == old(pixels)@.subrange(start as int, end as int),
        final(pixels)@ == spliced(old(pixels)@, start as int, end as int, final(r)@),
{
    part_mut(pixels.as_mut_slice(), start, end)
}

impl<T> ImgBuf<T> {

    /// The layout of the buffer.
    pub closed spec fn spec_layout(&self) -> ImgBufLayout {
        self.dimensions
    }

    /// All allocated pixels, line after line, padding included.
    pub closed spec fn spec_pixels(&self) -> Seq<T> {
        self.pixels@
    }

    /// Positions of one line in the pixel data.
    fn line(&self, line: usize) -> (r: std::ops::Range<usize>)
        requires
            self.wf(),
            line < self.spec_layout().size.y,
        ensures
            r.start == line * self.spec_layout().stride,
            r.end == r.start + self.spec_layout().size.x,
            r.end <= self.spec_pixels().len(),
    {
        proof {
            assert(layout_holds(self.dimensions, self.pixels@.len() as int));
            lemma_line_bounds(self.dimensions, line as int);
        }
        let n = self.pixels.len();
        proof {
            // the line ends within the pixel data, whose length is a `usize`
            assert(line * self.dimensions.stride + self.dimensions.size.x <= n);
        }
        let start = line * self.dimensions.stride;
        start..(start + self.dimensions.size.x)
    }

    /// Image layout: size and row stride.
    pub fn dimensions(&self) -> (r: ImgBufLayout)
        ensures
            r == self.spec_layout(),
    {
        self.dimensions
    }

    /// The pixel data, line after line, padding included.
    pub fn into_pixels(self) -> (r: Vec<T>)
        ensures
            r@ == self.spec_pixels(),
    {
        self.pixels
    }
}

impl<T: Copy> ImgBuf<T> {
    /// Image of the given layout over the given pixel data.
    pub fn from_vec_stride(dimensions: ImgBufLayout, pixels: Vec<T>) -> (r: Self)
        requires
            dimensions.stride >= dimensions.size.x,
            pixels@.len() == dimensions.spec_data_length(),
        ensures
            r.wf(),
            r.spec_layout() == dimensions,
            r.spec_pixels() == pixels@,
    {
        ImgBuf { dimensions, pixels }
    }

    /// Image of the given layout over the given pixel data, or the reason
    /// why the data cannot back such an image.
    pub fn try_from_vec_stride(dimensions: ImgBufLayout, pixels: Vec<T>) -> (r: Result<Self, LayoutError>)
        ensures
            r is Ok <==> dimensions.stride >= dimensions.size.x && pixels@.len() == dimensions.spec_data_length(),
            dimensions.stride < dimensions.size.x ==> r == Err::<Self, LayoutError>(LayoutError::StrideTooSmall { layout: dimensions }),
            dimensions.stride >= dimensions.size.x && pixels@.len() != dimensions.spec_data_length()
                ==> r == Err::<Self, LayoutError>(LayoutError::DataLength { data_size: pixels@.len() as usize, layout: dimensions }),
            r is Ok ==> r.unwrap().wf() && r.unwrap().spec_layout() == dimensions && r.unwrap().spec_pixels() == pixels@,
    {
        if dimensions.stride < dimensions.size.x {
            return Err(LayoutError::StrideTooSmall { layout: dimensions });
        }
        match dimensions.assert_data_size_correct(pixels.len()) {
            Ok(()) => Ok(Self::from_vec_stride(dimensions, pixels)),
            Err(e) => Err(e),
        }
    }

    /// Image of the given size over pixel data with no padding.
    pub fn from_vec(size: ImgSize, data: Vec<T>) -> (r: Self)
        requires
            data@.len() == size.x * size.y,
        ensures
            r.wf(),
            r.spec_layout() == (ImgBufLayout { size, stride: size.x }),
            r.spec_pixels() == data@,
    {
        proof {
            assert(size.x * size.y == size.y * size.x) by (nonlinear_arith);
        }
        Self::from_vec_stride(ImgBufLayout { size, stride: size.x }, data)
    }

    /// Image of the given size with every pixel set to `init`.
    pub fn new_init(size: ImgSize, init: T) -> (r: Self)
        requires
            size.x * size.y <= usize::MAX,
        ensures
            r.wf(),
            r.spec_layout() == (ImgBufLayout { size, stride: size.x }),
            r.spec_pixels() == Seq::new((size.x * size.y) as nat, |i: int| init),
    {
        let n = size.product();
        let mut data: Vec<T> = Vec::new();
        let mut i: usize = 0;
        while i < n
            invariant
                i <= n,
                data@ == Seq::new(i as nat, |k: int| init),
            decreases n - i,
        {
            data.push(init);
            i = i + 1;
            proof {
                assert(data@ =~= Seq::new(i as nat, |k: int| init));
            }
        }
        Self::from_vec(size, data)
    }
}

impl<T: Copy + Default> ImgBuf<T> {
    /// Image of the given size with every pixel set to `T::default()`.
    pub fn new(size: ImgSize) -> (r: Self)
        requires
            size.x * size.y <= usize::MAX,
        ensures
            r.wf(),
            r.spec_layout() == (ImgBufLayout { size, stride: size.x }),
            r.spec_pixels().len() == size.x * size.y,
            forall|i: int| 0 <= i < r.spec_pixels().len() ==> call_ensures(T::default, (), #[trigger] r.spec_pixels()[i]),
    {
        let init = T::default();
        Self::new_init(size, init)
    }

    /// Image with the size of `other` and every pixel set to `T::default()`.
    pub fn new_like(other: &Self) -> (r: Self)
        requires
            other.spec_layout().size.x * other.spec_layout().size.y <= usize::MAX,
        ensures
            r.wf(),
            r.spec_layout() == (ImgBufLayout { size: other.spec_layout().size, stride: other.spec_layout().size.x }),
            r.spec_pixels().len() == other.spec_layout().size.x * other.spec_layout().size.y,
            forall|i: int| 0 <= i < r.spec_pixels().len() ==> call_ensures(T::default, (), #[trigger] r.spec_pixels()[i]),
    {
        Self::new(other.dimensions.size)
    }
}

impl<T> Img<T> for ImgBuf<T> {
    closed spec fn wf(&self) -> bool {
        layout_holds(self.dimensions, self.pixels@.len() as int)
    }

    open spec fn spec_size(&self) -> ImgSize {
        self.spec_layout().size
    }

    open spec fn spec_lines(&self) -> Seq<Seq<T>> {
        Seq::new(self.spec_layout().size.y as nat, |y: int| layout_line(self.spec_layout(), self.spec_pixels(), y))
    }

    proof fn lemma_shape(&self) {
    }

    fn size(&self) -> (r: ImgSize) {
        self.dimensions.size
    }

    fn line_ref(&self, line: usize) -> (r: &[T]) {
        let range = self.line(line);
        let r = part(self.pixels.as_slice(), range.start, range.end);
        proof {
            assert(r@ =~= self.spec_lines()[line as int]);
        }
        r
    }
}

impl<T> ImgMut<T> for ImgBuf<T> {
    fn line_mut(&mut self, line: usize) -> (r: &mut [T]) {
        let range = self.line(line);
        proof {
            lemma_line_bounds(self.dimensions, line as int);
            lemma_line_replaced(self.dimensions, self.pixels@, line as int);
            assert(self.spec_lines()[line as int] =~= self.pixels@.subrange(range.start as int, range.end as int));
        }
        let r = slice_part_mut(&mut self.pixels, range.start, range.end);
        r
    }
}

} // verus!
