use crate::image::{Img, ImgBuf, ImgMut, ImgSize};
use vstd::prelude::*;

verus! {

/// Index of the source element that target element `i` takes when
/// `source_size` elements are scaled to `target_size`.
pub open spec fn scaled_index(i: int, source_size: int, target_size: int) -> int {
    i * source_size / target_size
}

/// Lookup table for scaling `source_size` elements to `target_size`
/// elements: target element `i` takes source element `i * source_size / target_size`.
pub fn scale_index_table(source_size: usize, target_size: usize) -> (r: Vec<usize>)
    requires
        target_size == 0 || (target_size - 1) * source_size <= usize::MAX,
    ensures
        r@.len() == target_size,
        forall|i: int| 0 <= i < target_size ==> #[trigger] r@[i] == scaled_index(i, source_size as int, target_size as int),
        forall|i: int| 0 <= i < target_size && source_size > 0 ==> #[trigger] r@[i] < source_size,
{
    let mut table: Vec<usize> = Vec::new();
    let mut x: usize = 0;
    while x < target_size
        invariant
            target_size == 0 || (target_size - 1) * source_size <= usize::MAX,
            x <= target_size,
            table@.len() == x,
            forall|i: int| 0 <= i < x ==> #[trigger] table@[i] == scaled_index(i, source_size as int, target_size as int),
            forall|i: int| 0 <= i < x && source_size > 0 ==> #[trigger] table@[i] < source_size,
        decreases target_size - x,
    {
        proof {
            assert(x * source_size <= (target_size - 1) * source_size) by (nonlinear_arith)
                requires
                    x < target_size,
            ;
            if source_size > 0 {
                assert((x as int) * (source_size as int) / (target_size as int) < source_size as int) by (nonlinear_arith)
                    requires
                        x < target_size,
                        source_size > 0,
                ;
            }
        }
        table.push(x * source_size / target_size);
        x = x + 1;
    }
    table
}

/// Fills `dst` with `src[indices[x]]` for every `x`.
fn resize_line<T: Copy>(src: &[T], dst: &mut [T], indices: &Vec<usize>)
    requires
        indices@.len() == old(dst)@.len(),
        forall|i: int| 0 <= i < indices@.len() ==> #[trigger] indices@[i] < src@.len(),
    ensures
        final(dst)@.len() == old(dst)@.len(),
        forall|x: int| 0 <= x < old(dst)@.len() ==> #[trigger] final(dst)@[x] == src@[indices@[x] as int],
{
    let n = dst.len();
    let mut x: usize = 0;
    while x < n
        invariant
            n == indices@.len(),
            dst@.len() == n,
            forall|i: int| 0 <= i < indices@.len() ==> #[trigger] indices@[i] < src@.len(),
            x <= n,
            forall|i: int| 0 <= i < x ==> #[trigger] dst@[i] == src@[indices@[i] as int],
        decreases n - x,
    {
        dst[x] = src[indices[x]];
        x = x + 1;
    }
}

/// Scales `image` to `size` by nearest neighbour: target pixel `(x, y)` takes
/// source pixel `(x * width / size.x, y * height / size.y)`.
pub fn resize_nearest_new<T: Copy + Default, I: Img<T>>(image: &I, size: ImgSize) -> (r: ImgBuf<T>)
    requires
        image.wf(),
        size.x * size.y <= usize::MAX,
        size.x == 0 || (size.x - 1) * image.spec_size().x <= usize::MAX,
        size.y == 0 || (size.y - 1) * image.spec_size().y <= usize::MAX,
        size.x > 0 ==> image.spec_size().x > 0,
        size.y > 0 ==> image.spec_size().y > 0,
    ensures
        r.wf(),
        r.spec_size() == size,
        forall|y: int, x: int|
            0 <= y < size.y && 0 <= x < size.x ==> #[trigger] r.spec_lines()[y][x] == image.spec_lines()[scaled_index(
                y,
                image.spec_size().y as int,
                size.y as int,
            )][scaled_index(x, image.spec_size().x as int, size.x as int)],
{
    proof {
        image.lemma_shape();
    }
    let x_indices = scale_index_table(image.width(), size.x);
    let y_indices = scale_index_table(image.height(), size.y);
    let mut result: ImgBuf<T> = ImgBuf::new_init(size, T::default());
    let mut line: usize = 0;
    while line < size.y
        invariant
            image.wf(),
            result.wf(),
            result.spec_size() == size,
            image.spec_lines().len() == image.spec_size().y,
            forall|i: int| 0 <= i < image.spec_size().y ==> (#[trigger] image.spec_lines()[i]).len() == image.spec_size().x,
            x_indices@.len() == size.x,
            y_indices@.len() == size.y,
            forall|i: int| 0 <= i < size.x ==> #[trigger] x_indices@[i] == scaled_index(i, image.spec_size().x as int, size.x as int),
            forall|i: int| 0 <= i < size.x ==> #[trigger] x_indices@[i] < image.spec_size().x,
            forall|i: int| 0 <= i < size.y ==> #[trigger] y_indices@[i] == scaled_index(i, image.spec_size().y as int, size.y as int),
            forall|i: int| 0 <= i < size.y ==> #[trigger] y_indices@[i] < image.spec_size().y,
            line <= size.y,
            forall|y: int, x: int|
                0 <= y < line && 0 <= x < size.x ==> #[trigger] result.spec_lines()[y][x] == image.spec_lines()[scaled_index(
                    y,
                    image.spec_size().y as int,
                    size.y as int,
                )][scaled_index(x, image.spec_size().x as int, size.x as int)],
        decreases size.y - line,
    {
        proof {
            result.lemma_shape();
        }
        let src = image.line_ref(y_indices[line]);
        let dst = result.line_mut(line);
        resize_line(src, dst, &x_indices);
        line = line + 1;
    }
    result
}

} // verus!
