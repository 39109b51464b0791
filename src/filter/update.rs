use crate::geometry::{ImgRange, Range, Range2d};
use crate::image::{spec_img_range, Img, ImgMut};
use vstd::prelude::*;

verus! {

/// Whether `result` is `image` with each pixel of the area `range` replaced
/// by a possible result of `operator` on it.
pub open spec fn updated_pixels<T, F: Fn(T) -> T>(operator: F, image: Seq<Seq<T>>, result: Seq<Seq<T>>, range: ImgRange) -> bool {
    &&& result.len() == image.len()
    &&& forall|y: int| 0 <= y < image.len() ==> (#[trigger] result[y]).len() == image[y].len()
    &&& forall|y: int, x: int|
        0 <= y < image.len() && 0 <= x < image[y].len() ==> if range.x.start <= x < range.x.end && range.y.start <= y
            < range.y.end {
            call_ensures(operator, (image[y][x],), #[trigger] result[y][x])
        } else {
            result[y][x] == image[y][x]
        }
}

/// Replaces `line[i]` by `operator(line[i])` for `i` in `[start, end)`.
fn update_line<T: Copy, F: Fn(T) -> T>(line: &mut [T], start: usize, end: usize, operator: &F)
    requires
        start <= end <= old(line)@.len(),
        forall|a: T| operator.requires((a,)),
    ensures
        final(line)@.len() == old(line)@.len(),
        forall|x: int|
            0 <= x < old(line)@.len() ==> if start <= x < end {
                call_ensures(*operator, (old(line)@[x],), #[trigger] final(line)@[x])
            } else {
                final(line)@[x] == old(line)@[x]
            },
{
    let mut i = start;
    while i < end
        invariant
            start <= i <= end,
            end <= old(line)@.len(),
            line@.len() == old(line)@.len(),
            forall|a: T| operator.requires((a,)),
            forall|x: int|
                0 <= x < old(line)@.len() ==> if start <= x < i {
                    call_ensures(*operator, (old(line)@[x],), #[trigger] line@[x])
                } else {
                    line@[x] == old(line)@[x]
                },
        decreases end - i,
    {
        let value = operator(line[i]);
        line[i] = value;
        i = i + 1;
    }
}

/// Updates the pixels of area `range` of `image` in place: each becomes
/// `operator(pixel)`. Pixels of the area outside the image are ignored.
pub fn update_range<T: Copy, O: ImgMut<T>, F: Fn(T) -> T>(image: &mut O, range: ImgRange, operator: F)
    requires
        old(image).wf(),
        old(image).spec_size().x <= isize::MAX,
        old(image).spec_size().y <= isize::MAX,
        forall|a: T| operator.requires((a,)),
    ensures
        final(image).wf(),
        final(image).spec_size() == old(image).spec_size(),
        updated_pixels(operator, old(image).spec_lines(), final(image).spec_lines(), range),
{
    let ghost lines0 = image.spec_lines();
    proof {
        image.lemma_shape();
    }
    let area = range.intersect(image.range());
    if area.x.start >= area.x.end || area.y.start >= area.y.end {
        return;
    }
    let columns = Range { start: area.x.start as usize, end: area.x.end as usize };
    let mut line = area.y.start as usize;
    while line < area.y.end as usize
        invariant
            image.wf(),
            image.spec_size() == old(image).spec_size(),
            lines0.len() == image.spec_size().y,
            forall|i: int| 0 <= i < lines0.len() ==> (#[trigger] lines0[i]).len() == image.spec_size().x,
            0 <= area.y.start <= line <= area.y.end <= image.spec_size().y,
            0 <= area.x.start < area.x.end <= image.spec_size().x,
            area.x.start == columns.start,
            area.x.end == columns.end,
            area.x.start == if range.x.start >= 0 { range.x.start as int } else { 0 },
            area.y.start == if range.y.start >= 0 { range.y.start as int } else { 0 },
            area.x.end <= range.x.end,
            area.y.end <= range.y.end,
            area.x.end == range.x.end || area.x.end == image.spec_size().x,
            area.y.end == range.y.end || area.y.end == image.spec_size().y,
            forall|a: T| operator.requires((a,)),
            updated_pixels(
                operator,
                lines0,
                image.spec_lines(),
                Range2d { x: range.x, y: Range { start: range.y.start, end: line as isize } },
            ),
        decreases area.y.end - line,
    {
        let dst = image.line_mut(line);
        update_line(dst, columns.start, columns.end, &operator);
        line = line + 1;
    }
}

/// Updates every pixel of `image` in place: each becomes `operator(pixel)`.
pub fn update<T: Copy, O: ImgMut<T>, F: Fn(T) -> T>(image: &mut O, operator: F)
    requires
        old(image).wf(),
        old(image).spec_size().x <= isize::MAX,
        old(image).spec_size().y <= isize::MAX,
        forall|a: T| operator.requires((a,)),
    ensures
        final(image).wf(),
        final(image).spec_size() == old(image).spec_size(),
        updated_pixels(operator, old(image).spec_lines(), final(image).spec_lines(), spec_img_range(old(image).spec_size())),
{
    let range = image.range();
    update_range(image, range, operator);
}

} // verus!
