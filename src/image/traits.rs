use crate::geometry::{ImgRange, Range, Range2d, Vec2d};
use vstd::prelude::*;

verus! {

/// Width (`x`) and height (`y`) of an image, in pixels.
pub type ImgSize = Vec2d<usize>;

/// The area of a whole image of the given size, in signed coordinates.
pub open spec fn spec_img_range(size: ImgSize) -> ImgRange {
    Range2d {
        x: Range { start: 0isize, end: size.x as isize },
        y: Range { start: 0isize, end: size.y as isize },
    }
}

/// Read access to the pixels of an image, line by line.
///
/// An image is modelled by its size and by its lines: `height` sequences of
/// `width` pixels each.
pub trait Img<T> {
    /// Whether the image's storage is consistent with its size.
    spec fn wf(&self) -> bool;

    /// Width and height of the image.
    spec fn spec_size(&self) -> ImgSize;

    /// The lines of the image, top to bottom.
    spec fn spec_lines(&self) -> Seq<Seq<T>>;

    /// There are `height` lines of `width` pixels each.
    proof fn lemma_shape(&self)
        ensures
            self.spec_lines().len() == self.spec_size().y,
            forall|y: int| 0 <= y < self.spec_lines().len() ==> (#[trigger] self.spec_lines()[y]).len() == self.spec_size().x,
    ;

    /// Width and height of the image, in pixels.
    fn size(&self) -> (r: ImgSize)
        ensures
            r == self.spec_size(),
    ;

    /// The pixels of one line, stored contiguously.
    fn line_ref(&self, line: usize) -> (r: &[T])
        requires
            self.wf(),
            line < self.spec_size().y,
        ensures
            r@ == self.spec_lines()[line as int],
    ;

    /// Image width in pixels.
    fn width(&self) -> (r: usize)
        ensures
            r == self.spec_size().x,
    {
        self.size().x
    }

    /// Image height in pixels.
    fn height(&self) -> (r: usize)
        ensures
            r == self.spec_size().y,
    {
        self.size().y
    }

    /// The whole image as an area in signed coordinates.
    fn range(&self) -> (r: ImgRange)
        requires
            self.spec_size().x <= isize::MAX,
            self.spec_size().y <= isize::MAX,
        ensures
            r == spec_img_range(self.spec_size()),
    {
        let size = self.size();
        Range2d::new(0..size.x as isize, 0..size.y as isize)
    }
}

/// Write access to the pixels of an image, line by line.
pub trait ImgMut<T>: Img<T> {
    /// Mutable access to the pixels of one line; the image afterwards holds
    /// whatever the line was given (a slice keeps its length).
    fn line_mut(&mut self, line: usize) -> (r: &mut [T])
        requires
            old(self).wf(),
            line < old(self).spec_size().y,
        ensures
            r@ == old(self).spec_lines()[line as int],
            final(self).spec_size() == old(self).spec_size(),
            final(r)@.len() == r@.len() ==> {
                &&& final(self).wf()
                &&& final(self).spec_lines() == old(self).spec_lines().update(line as int, final(r)@)
            },
    ;
}

} // verus!
