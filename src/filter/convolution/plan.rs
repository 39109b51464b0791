use crate::geometry::range::min_int;
use crate::geometry::Range;
use vstd::prelude::*;

verus! {

/// One tap of a one-dimensional filter pass over a line or a column.
///
/// Destination positions `dst_range` take source positions `src_range` (an
/// empty pair of ranges is placed at or after position zero); the
/// `outside_start` destination positions before them read the first pixel of
/// the line and the `outside_end` positions after them its last pixel.
#[derive(Clone, Copy, PartialEq, Eq, Hash, Debug)]
pub struct FilterIteration {
    /// Range in one line or column of the source image.
    pub src_range: Range<usize>,
    /// Range in one line or column of the destination image.
    pub dst_range: Range<usize>,
    /// Index of the kernel coefficient of this tap.
    pub kernel_index: usize,
    /// Number of positions before the image, read as its first pixel.
    pub outside_start: usize,
    /// Number of positions after the image, read as its last pixel.
    pub outside_end: usize,
}

/// Why a filter cannot be applied.
#[derive(Clone, Copy, PartialEq, Eq, Hash, Debug)]
pub enum FilterError {
    /// The kernel has an even number of coefficients, so it has no center tap.
    EvenKernel,
}

/// `v` clamped to `[lo, hi]`.
pub open spec fn clamp(v: int, lo: int, hi: int) -> int {
    if v < lo {
        lo
    } else if v > hi {
        hi
    } else {
        v
    }
}

/// Index of the center coefficient of a kernel of `kernel_size` coefficients.
pub open spec fn kernel_center(kernel_size: int) -> int {
    (kernel_size - 1) / 2
}

/// The tap at offset `pos` from the center, over a line of `length` pixels,
/// reading the source interval `src` and writing it moved by `shift`.
pub open spec fn spec_iteration(pos: int, shift: int, center: int, length: int, src: Range<isize>) -> FilterIteration {
    let start = clamp(src.start + pos, 0, length);
    let end = clamp(src.end + pos, 0, length);
    FilterIteration {
        src_range: Range { start: start as usize, end: end as usize },
        dst_range: Range { start: max0(start - pos + shift) as usize, end: max0(end - pos + shift) as usize },
        kernel_index: (center - pos) as usize,
        outside_start: max0(-(src.start + pos)) as usize,
        outside_end: max0(src.end + pos - length) as usize,
    }
}

/// `v`, or zero where `v` is negative.
pub open spec fn max0(v: int) -> int {
    if v < 0 { 0 } else { v }
}

/// The plan: one tap for each kernel coefficient, by increasing source offset.
pub open spec fn spec_plan(length: int, kernel_size: int, src: Range<isize>, dst: Range<isize>) -> Seq<FilterIteration> {
    let center = kernel_center(kernel_size);
    Seq::new(
        kernel_size as nat,
        |j: int| spec_iteration(j - center, dst.start - src.start, center, length, src),
    )
}

/// What a plan needs of its inputs: a source interval within the line, a
/// destination that starts at or after zero, and coordinates that fit in `isize`.
pub open spec fn plan_inputs_valid(length: int, kernel_size: int, src: Range<isize>, dst: Range<isize>) -> bool {
    &&& 0 <= src.start <= src.end <= length
    &&& 0 <= dst.start
    &&& length + kernel_size <= isize::MAX
    &&& dst.start + (src.end - src.start) + kernel_size <= isize::MAX
}

/// Prepares the taps of a filter pass along a line or column of `length`
/// pixels, for the source interval `src` written to the interval `dst`.
///
/// Fails when `kernel_size` is even, whatever the other inputs.
pub fn create_filter_plan(length: usize, kernel_size: usize, src: Range<isize>, dst: Range<isize>) -> (r: Result<Vec<FilterIteration>, FilterError>)
    requires
        kernel_size % 2 == 1 ==> plan_inputs_valid(length as int, kernel_size as int, src, dst),
    ensures
        r is Ok <==> kernel_size % 2 == 1,
        r is Err ==> r == Err::<Vec<FilterIteration>, FilterError>(FilterError::EvenKernel),
        r is Ok ==> r.unwrap()@ == spec_plan(length as int, kernel_size as int, src, dst),
{
    if kernel_size % 2 == 0 {
        return Err(FilterError::EvenKernel);
    }
    let center = ((kernel_size - 1) / 2) as isize;
    let shift = dst.start - src.start;
    let mut plan: Vec<FilterIteration> = Vec::new();
    let mut j: usize = 0;
    while j < kernel_size
        invariant
            plan_inputs_valid(length as int, kernel_size as int, src, dst),
            kernel_size % 2 == 1,
            center == kernel_center(kernel_size as int),
            shift == dst.start - src.start,
            j <= kernel_size,
            plan@ =~= spec_plan(length as int, kernel_size as int, src, dst).subrange(0, j as int),
        decreases kernel_size - j,
    {
        let step = iteration(j as isize - center, shift, center, length as isize, src);
        plan.push(step);
        j = j + 1;
    }
    Ok(plan)
}

/// The tap at offset `pos` from the center.
fn iteration(pos: isize, shift: isize, levels: isize, length: isize, src: Range<isize>) -> (r: FilterIteration)
    requires
        0 <= src.start <= src.end <= length,
        0 <= levels,
        -levels <= pos <= levels,
        length + 2 * levels + 1 <= isize::MAX,
        0 <= src.start + shift,
        src.end + shift + 2 * levels + 1 <= isize::MAX,
    ensures
        r == spec_iteration(pos as int, shift as int, levels as int, length as int, src),
{
    let s = src.start + pos;
    let e = src.end + pos;
    let start = if s < 0 { 0 } else if s > length { length } else { s };
    let end = if e < 0 { 0 } else if e > length { length } else { e };
    let dst_start = start - pos + shift;
    let dst_end = end - pos + shift;
    FilterIteration {
        src_range: Range { start: start as usize, end: end as usize },
        dst_range: Range {
            start: (if dst_start < 0 { 0 } else { dst_start }) as usize,
            end: (if dst_end < 0 { 0 } else { dst_end }) as usize,
        },
        kernel_index: (levels - pos) as usize,
        outside_start: (if s < 0 { -s } else { 0 }) as usize,
        outside_end: (if e > length { e - length } else { 0 }) as usize,
    }
}

/// Number of integers of `[lo, hi)` below `bound`.
pub open spec fn count_below(lo: int, hi: int, bound: int) -> nat
    decreases hi - lo,
{
    if hi <= lo {
        0
    } else {
        count_below(lo, hi - 1, bound) + if hi - 1 < bound { 1nat } else { 0nat }
    }
}

/// Number of integers of `[lo, hi)` at or above `bound`.
pub open spec fn count_from(lo: int, hi: int, bound: int) -> nat
    decreases hi - lo,
{
    if hi <= lo {
        0
    } else {
        count_from(lo, hi - 1, bound) + if hi - 1 >= bound { 1nat } else { 0nat }
    }
}

proof fn lemma_count_below(lo: int, hi: int, bound: int)
    requires
        lo <= hi,
    ensures
        count_below(lo, hi, bound) == clamp(bound - lo, 0, hi - lo),
    decreases hi - lo,
{
    if lo < hi {
        lemma_count_below(lo, hi - 1, bound);
    }
}

proof fn lemma_count_from(lo: int, hi: int, bound: int)
    requires
        lo <= hi,
    ensures
        count_from(lo, hi, bound) == clamp(hi - bound, 0, hi - lo),
    decreases hi - lo,
{
    if lo < hi {
        lemma_count_from(lo, hi - 1, bound);
    }
}

/// The fields of the tap at index `j`, as integers.
pub(crate) proof fn lemma_step_values(length: usize, kernel_size: usize, src: Range<isize>, dst: Range<isize>, j: int)
    requires
        plan_inputs_valid(length as int, kernel_size as int, src, dst),
        kernel_size % 2 == 1,
        0 <= j < kernel_size,
    ensures
        ({
            let step = spec_plan(length as int, kernel_size as int, src, dst)[j];
            let p = j - kernel_center(kernel_size as int);
            let start = clamp(src.start + p, 0, length as int);
            let end = clamp(src.end + p, 0, length as int);
            let shift = dst.start - src.start;
            &&& step.src_range.start == start
            &&& step.src_range.end == end
            &&& step.dst_range.start == max0(start - p + shift)
            &&& step.dst_range.end == max0(end - p + shift)
            &&& start < end ==> step.dst_range.start == start - p + shift
            &&& step.outside_start == max0(-(src.start + p))
            &&& step.outside_end == max0(src.end + p - length)
            &&& step.kernel_index == kernel_size - 1 - j
        }),
{
    let c = kernel_center(kernel_size as int);
    assert(2 * c + 1 == kernel_size);
    let p = j - c;
    let start = clamp(src.start + p, 0, length as int);
    let end = clamp(src.end + p, 0, length as int);
    assert(0 <= start <= end <= length);
}

/// How the tap at index `j` covers the source interval.
proof fn lemma_step_cover(length: usize, kernel_size: usize, src: Range<isize>, dst: Range<isize>, j: int)
    requires
        plan_inputs_valid(length as int, kernel_size as int, src, dst),
        kernel_size % 2 == 1,
        0 <= j < kernel_size,
    ensures
        ({
            let step = spec_plan(length as int, kernel_size as int, src, dst)[j];
            let c = kernel_center(kernel_size as int);
            let w = src.end - src.start;
            let len = step.src_range.end - step.src_range.start;
            &&& src.start + j - c <= length && src.end + j - c >= 0 ==> step.outside_start + step.outside_end + len == w
            &&& min_int(step.outside_start as int, w) + min_int(step.outside_end as int, w) + len == w
            &&& step.dst_range.end - step.dst_range.start == len
        }),
{
    lemma_step_values(length, kernel_size, src, dst, j);
}

/// Edge replication of a plan for an odd kernel of `k` coefficients:
/// - the first tap replicates the first pixel once for each kernel position
///   that reads before pixel 0 when filtering the first pixel of the interval;
/// - the last tap replicates the last pixel once for each kernel position that
///   reads at or after pixel `length` when filtering the last pixel;
/// - in every tap whose shifted interval meets the line, the replicated
///   positions at both ends and the in-bounds positions together cover the
///   interval exactly once (in every tap, once the replicated counts are
///   capped at the interval's width);
/// - the in-bounds source and destination ranges of a tap have the same length.
pub proof fn lemma_plan_edge_replication(length: usize, kernel_size: usize, src: Range<isize>, dst: Range<isize>)
    requires
        plan_inputs_valid(length as int, kernel_size as int, src, dst),
        kernel_size % 2 == 1,
    ensures
        ({
            let plan = spec_plan(length as int, kernel_size as int, src, dst);
            let c = kernel_center(kernel_size as int);
            let w = src.end - src.start;
            &&& plan[0].outside_start == count_below(src.start - c, src.start - c + kernel_size, 0)
            &&& src.start < src.end ==> plan[kernel_size - 1].outside_end
                == count_from(src.end - 1 - c, src.end - 1 - c + kernel_size, length as int)
            &&& forall|j: int|
                0 <= j < kernel_size && src.start + j - c <= length && src.end + j - c >= 0
                    ==> #[trigger] plan[j].outside_start + plan[j].outside_end
                        + (plan[j].src_range.end - plan[j].src_range.start) == w
            &&& forall|j: int|
                0 <= j < kernel_size ==> min_int(#[trigger] plan[j].outside_start as int, w)
                    + min_int(plan[j].outside_end as int, w)
                    + (plan[j].src_range.end - plan[j].src_range.start) == w
            &&& forall|j: int|
                0 <= j < kernel_size ==> #[trigger] plan[j].dst_range.end - plan[j].dst_range.start
                    == plan[j].src_range.end - plan[j].src_range.start
        }),
{
    let c = kernel_center(kernel_size as int);
    let plan = spec_plan(length as int, kernel_size as int, src, dst);
    let w = src.end - src.start;
    lemma_count_below(src.start - c, src.start - c + kernel_size, 0);
    lemma_count_from(src.end - 1 - c, src.end - 1 - c + kernel_size, length as int);
    lemma_step_values(length, kernel_size, src, dst, 0);
    lemma_step_values(length, kernel_size, src, dst, kernel_size - 1);
    assert forall|j: int| 0 <= j < kernel_size implies {
        &&& (src.start + j - c <= length && src.end + j - c >= 0 ==> #[trigger] plan[j].outside_start
            + plan[j].outside_end + (plan[j].src_range.end - plan[j].src_range.start) == w)
        &&& min_int(plan[j].outside_start as int, w) + min_int(plan[j].outside_end as int, w)
            + (plan[j].src_range.end - plan[j].src_range.start) == w
        &&& plan[j].dst_range.end - plan[j].dst_range.start == plan[j].src_range.end - plan[j].src_range.start
    } by {
        lemma_step_cover(length, kernel_size, src, dst, j);
    }
}

} // verus!
