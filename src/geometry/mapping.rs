use super::range::{max_int, min_int};
use super::{ImgRange, Range, Range2d, Vec2d};
use vstd::prelude::*;

verus! {

/// Two areas of equal size, one in a source image and one in a destination
/// image, and the shift between their origins.
///
/// `src` lies within the source image and `dst` within the destination image;
/// an area with nothing to map is stored as an empty range at its start.
#[derive(Clone, Copy, PartialEq, Eq, Hash, Debug)]
pub struct ImageMapping {
    /// Area in the source image.
    pub src: Range2d<usize>,
    /// Area in the destination image.
    pub dst: Range2d<usize>,
    /// Shift from `src` to `dst`.
    pub shift: Vec2d<isize>,
}

/// Start of `requested ∩ bound ∩ (other - shift) ∩ (other_bound - shift)`.
pub open spec fn clipped_start(requested: Range<isize>, bound: Range<isize>, other: Range<isize>, other_bound: Range<isize>, shift: int) -> int {
    max_int(
        max_int(requested.start as int, bound.start as int),
        max_int(other.start - shift, other_bound.start - shift),
    )
}

/// End of the same clipped range, never before its start.
pub open spec fn clipped_end(requested: Range<isize>, bound: Range<isize>, other: Range<isize>, other_bound: Range<isize>, shift: int) -> int {
    max_int(
        clipped_start(requested, bound, other, other_bound, shift),
        min_int(min_int(requested.end as int, bound.end as int), min_int(other.end - shift, other_bound.end - shift)),
    )
}

/// The range `requested ∩ bound ∩ (other - shift) ∩ (other_bound - shift)`,
/// stored as an empty range at its start when there is no overlap.
pub open spec fn clipped_axis(requested: Range<isize>, bound: Range<isize>, other: Range<isize>, other_bound: Range<isize>, shift: int) -> Range<usize> {
    Range {
        start: clipped_start(requested, bound, other, other_bound, shift) as usize,
        end: clipped_end(requested, bound, other, other_bound, shift) as usize,
    }
}

/// Whether the shift between the requested areas, and the areas and image
/// bounds moved by it, can be computed in `isize`, with bounds that start at
/// or after zero.
pub open spec fn mapping_fits(input_range: ImgRange, output_range: ImgRange, input_size: ImgRange, output_size: ImgRange) -> bool {
    &&& axis_fits(input_range.x, output_range.x, input_size.x, output_size.x)
    &&& axis_fits(input_range.y, output_range.y, input_size.y, output_size.y)
}

/// `mapping_fits` on one axis.
pub open spec fn axis_fits(input: Range<isize>, output: Range<isize>, input_bound: Range<isize>, output_bound: Range<isize>) -> bool {
    let shift = output.start - input.start;
    &&& isize::MIN <= shift <= isize::MAX
    &&& 0 <= input_bound.start
    &&& 0 <= output_bound.start
    &&& isize::MIN <= output.end - shift <= isize::MAX
    &&& isize::MIN <= input.end + shift <= isize::MAX
    &&& isize::MIN <= output_bound.start - shift <= isize::MAX
    &&& isize::MIN <= output_bound.end - shift <= isize::MAX
    &&& isize::MIN <= input_bound.start + shift <= isize::MAX
    &&& isize::MIN <= input_bound.end + shift <= isize::MAX
}

/// Whether source coordinate `p` lies in the requested input range and in the
/// input image, and `p + shift` in the requested output range and in the output image.
pub open spec fn point_maps(input: Range<isize>, output: Range<isize>, input_bound: Range<isize>, output_bound: Range<isize>, shift: int, p: int) -> bool {
    &&& input.start <= p < input.end
    &&& input_bound.start <= p < input_bound.end
    &&& output.start <= p + shift < output.end
    &&& output_bound.start <= p + shift < output_bound.end
}

/// The mapping of `input_range` in an image with area `input_size` onto
/// `output_range` in an image with area `output_size`.
pub open spec fn spec_mapping(input_range: ImgRange, output_range: ImgRange, input_size: ImgRange, output_size: ImgRange) -> ImageMapping {
    let sx = output_range.x.start - input_range.x.start;
    let sy = output_range.y.start - input_range.y.start;
    ImageMapping {
        src: Range2d {
            x: clipped_axis(input_range.x, input_size.x, output_range.x, output_size.x, sx),
            y: clipped_axis(input_range.y, input_size.y, output_range.y, output_size.y, sy),
        },
        dst: Range2d {
            x: clipped_axis(output_range.x, output_size.x, input_range.x, input_size.x, -sx),
            y: clipped_axis(output_range.y, output_size.y, input_range.y, input_size.y, -sy),
        },
        shift: Vec2d { x: sx as isize, y: sy as isize },
    }
}

/// `requested ∩ bound ∩ (other - shift) ∩ (other_bound - shift)` on one axis,
/// as an unsigned range.
fn clip_axis(requested: Range<isize>, bound: Range<isize>, other: Range<isize>, other_bound: Range<isize>, shift: isize) -> (r: Range<usize>)
    requires
        0 <= bound.start,
        isize::MIN <= other.start - shift <= isize::MAX,
        isize::MIN <= other.end - shift <= isize::MAX,
        isize::MIN <= other_bound.start - shift <= isize::MAX,
        isize::MIN <= other_bound.end - shift <= isize::MAX,
    ensures
        r == clipped_axis(requested, bound, other, other_bound, shift as int),
{
    let moved = Range { start: other.start - shift, end: other.end - shift };
    let moved_bound = Range { start: other_bound.start - shift, end: other_bound.end - shift };
    let clipped = requested.intersect(bound).intersect(moved).intersect(moved_bound);
    let end = if clipped.end < clipped.start { clipped.start } else { clipped.end };
    Range { start: clipped.start as usize, end: end as usize }
}

impl ImageMapping {
    /// Maps `input_range` of an image with area `input_size` onto `output_range`
    /// of an image with area `output_size`: the largest pair of areas of equal
    /// size, `src` within `input_range` and the input image, `dst` within
    /// `output_range` and the output image, with `dst` being `src` moved by
    /// the shift between the starts of the requested areas.
    ///
    /// When no point maps, both areas are empty.
    pub fn new(input_range: ImgRange, output_range: ImgRange, input_size: ImgRange, output_size: ImgRange) -> (r: Self)
        requires
            mapping_fits(input_range, output_range, input_size, output_size),
        ensures
            r == spec_mapping(input_range, output_range, input_size, output_size),
            r.shift.x == output_range.x.start - input_range.x.start,
            r.shift.y == output_range.y.start - input_range.y.start,
            r.src.x.start <= r.src.x.end,
            r.src.y.start <= r.src.y.end,
            r.dst.x.start == r.src.x.start + r.shift.x,
            r.dst.x.end == r.src.x.end + r.shift.x,
            r.dst.y.start == r.src.y.start + r.shift.y,
            r.dst.y.end == r.src.y.end + r.shift.y,
    {
        let sx = output_range.x.start - input_range.x.start;
        let sy = output_range.y.start - input_range.y.start;
        let src = Range2d {
            x: clip_axis(input_range.x, input_size.x, output_range.x, output_size.x, sx),
            y: clip_axis(input_range.y, input_size.y, output_range.y, output_size.y, sy),
        };
        let dst = Range2d {
            x: clip_axis(output_range.x, output_size.x, input_range.x, input_size.x, -sx),
            y: clip_axis(output_range.y, output_size.y, input_range.y, input_size.y, -sy),
        };
        ImageMapping { src, dst, shift: Vec2d { x: sx, y: sy } }
    }
}

/// For any requested areas and image bounds, the mapped areas have equal
/// width and equal height, the destination is the source moved by the shift,
/// and a source coordinate lies in the mapped source area exactly when it lies
/// in the requested input area and the input image and its shifted coordinate
/// lies in the requested output area and the output image. When no point maps
/// on an axis, both areas are empty on it.
pub proof fn lemma_mapping_same_shape(input_range: ImgRange, output_range: ImgRange, input_size: ImgRange, output_size: ImgRange)
    requires
        mapping_fits(input_range, output_range, input_size, output_size),
    ensures
        ({
            let m = spec_mapping(input_range, output_range, input_size, output_size);
            let sx = output_range.x.start - input_range.x.start;
            let sy = output_range.y.start - input_range.y.start;
            &&& m.src.x.start <= m.src.x.end
            &&& m.src.y.start <= m.src.y.end
            &&& m.dst.x.end - m.dst.x.start == m.src.x.end - m.src.x.start
            &&& m.dst.y.end - m.dst.y.start == m.src.y.end - m.src.y.start
            &&& m.dst.x.start == m.src.x.start + sx
            &&& m.dst.y.start == m.src.y.start + sy
            &&& forall|p: int|
                (m.src.x.start <= p < m.src.x.end) == #[trigger] point_maps(input_range.x, output_range.x, input_size.x, output_size.x, sx, p)
            &&& forall|p: int|
                (m.src.y.start <= p < m.src.y.end) == #[trigger] point_maps(input_range.y, output_range.y, input_size.y, output_size.y, sy, p)
            &&& (forall|p: int| !point_maps(input_range.x, output_range.x, input_size.x, output_size.x, sx, p))
                ==> m.src.x.start == m.src.x.end && m.dst.x.start == m.dst.x.end
            &&& (forall|p: int| !point_maps(input_range.y, output_range.y, input_size.y, output_size.y, sy, p))
                ==> m.src.y.start == m.src.y.end && m.dst.y.start == m.dst.y.end
        }),
{
    let m = spec_mapping(input_range, output_range, input_size, output_size);
    let sx = output_range.x.start - input_range.x.start;
    let sy = output_range.y.start - input_range.y.start;
    if m.src.x.start < m.src.x.end {
        assert(point_maps(input_range.x, output_range.x, input_size.x, output_size.x, sx, m.src.x.start as int));
    }
    if m.src.y.start < m.src.y.end {
        assert(point_maps(input_range.y, output_range.y, input_size.y, output_size.y, sy, m.src.y.start as int));
    }
}

} // verus!
