use super::operator::TapOperator;
use super::plan::{clamp, kernel_center, lemma_plan_edge_replication, lemma_step_values, max0, plan_inputs_valid, spec_plan, FilterIteration};
use crate::geometry::Range;
use crate::slices::{part, part_mut, spliced};
use vstd::prelude::*;

verus! {

/// Pixel `x` of a line whose first and last pixels are replicated outward.
pub open spec fn replicated<T>(line: Seq<T>, x: int) -> T {
    line[clamp(x, 0, line.len() - 1)]
}

/// `acc` after the first `j` taps of `kernel` centered on position `x` of
/// `line`; tap `j` reads position `x + j - center` and kernel value
/// `kernel[len - 1 - j]`.
pub open spec fn taps_applied<T, O: TapOperator<T>>(op: O, acc: T, line: Seq<T>, x: int, kernel: Seq<T>, j: int) -> T
    decreases j,
{
    if j <= 0 {
        acc
    } else {
        op.combine(
            replicated(line, x + (j - 1) - kernel_center(kernel.len() as int)),
            taps_applied(op, acc, line, x, kernel, j - 1),
            kernel[kernel.len() - j],
        )
    }
}

/// Destination line `dst` after the first `j` taps, for the source positions
/// `[start, end)` of `src` written at `[start + shift, end + shift)`.
pub open spec fn line_after_taps<T, O: TapOperator<T>>(op: O, src: Seq<T>, dst: Seq<T>, kernel: Seq<T>, start: int, end: int, shift: int, j: int) -> Seq<T> {
    Seq::new(
        dst.len(),
        |x: int|
            if start <= x - shift < end {
                taps_applied(op, dst[x], src, x - shift, kernel, j)
            } else {
                dst[x]
            },
    )
}

/// Like `line_after_taps`, with the first `done` positions one tap further.
spec fn line_progress<T, O: TapOperator<T>>(op: O, src: Seq<T>, dst: Seq<T>, kernel: Seq<T>, start: int, end: int, shift: int, j: int, done: int) -> Seq<T> {
    Seq::new(
        dst.len(),
        |x: int|
            if start <= x - shift < end {
                taps_applied(op, dst[x], src, x - shift, kernel, if x - shift - start < done { j + 1 } else { j })
            } else {
                dst[x]
            },
    )
}

/// `dst` with `src[src_start + i]` combined into `dst[dst_start + i]` for `i < len`.
pub open spec fn combined_at<T, O: TapOperator<T>>(op: &O, src: Seq<T>, dst: Seq<T>, src_start: int, dst_start: int, len: int, k: T) -> Seq<T> {
    Seq::new(
        dst.len(),
        |x: int|
            if dst_start <= x < dst_start + len {
                op.combine(src[src_start + x - dst_start], dst[x], k)
            } else {
                dst[x]
            },
    )
}

proof fn lemma_combined_splice<T, O: TapOperator<T>>(op: &O, src: Seq<T>, dst: Seq<T>, src_start: int, dst_start: int, len: int, k: T)
    requires
        0 <= src_start,
        src_start + len <= src.len(),
        0 <= dst_start,
        0 <= len,
        dst_start + len <= dst.len(),
    ensures
        forall|part: Seq<T>|
            part.len() == len && (forall|i: int|
                0 <= i < len ==> part[i] == op.combine(src[src_start + i], dst[dst_start + i], k))
                ==> #[trigger] spliced(dst, dst_start, dst_start + len, part) == combined_at(op, src, dst, src_start, dst_start, len, k),
{
    assert forall|part: Seq<T>|
        part.len() == len && (forall|i: int|
            0 <= i < len ==> part[i] == op.combine(src[src_start + i], dst[dst_start + i], k))
        implies #[trigger] spliced(dst, dst_start, dst_start + len, part) == combined_at(op, src, dst, src_start, dst_start, len, k) by {
        let a = spliced(dst, dst_start, dst_start + len, part);
        let b = combined_at(op, src, dst, src_start, dst_start, len, k);
        assert forall|x: int| 0 <= x < dst.len() implies a[x] == b[x] by {
            if dst_start <= x < dst_start + len {
                assert(part[x - dst_start] == op.combine(src[src_start + (x - dst_start)], dst[dst_start + (x - dst_start)], k));
            }
        }
        assert(a =~= b);
    }
}

/// Combines `src[src_start + i]` into `dst[dst_start + i]` for every `i < len`.
pub fn combine_range<T, O: TapOperator<T>>(op: &O, src: &[T], src_start: usize, dst: &mut [T], dst_start: usize, len: usize, k: T)
    requires
        src_start + len <= src@.len(),
        dst_start + len <= old(dst)@.len(),
    ensures
        final(dst)@ == combined_at(op, src@, old(dst)@, src_start as int, dst_start as int, len as int, k),
{
    proof {
        lemma_combined_splice(op, src@, dst@, src_start as int, dst_start as int, len as int, k);
    }
    let src_len = src.len();
    let dst_len = dst.len();
    proof {
        // both parts end within their slices, whose lengths are `usize`s
        assert(src_start + len <= src_len && dst_start + len <= dst_len);
    }
    let s = part(src, src_start, src_start + len);
    let d = part_mut(dst, dst_start, dst_start + len);
    op.apply(s, d, k);
}

/// Combining the next `len` positions, read at the positions of tap `j`,
/// moves them one tap further.
proof fn lemma_progress_step<T, O: TapOperator<T>>(
    op: O,
    src: Seq<T>,
    dst: Seq<T>,
    kernel: Seq<T>,
    start: int,
    end: int,
    shift: int,
    j: int,
    done: int,
    src_start: int,
    len: int,
)
    requires
        0 <= j < kernel.len(),
        0 <= done,
        0 <= len,
        done + len <= end - start,
        0 <= start + shift,
        end + shift <= dst.len(),
        0 <= src_start,
        src_start + len <= src.len(),
        forall|i: int|
            0 <= i < len ==> #[trigger] src[src_start + i] == replicated(
                src,
                start + done + i + j - kernel_center(kernel.len() as int),
            ),
    ensures
        combined_at(
            &op,
            src,
            line_progress(op, src, dst, kernel, start, end, shift, j, done),
            src_start,
            start + shift + done,
            len,
            kernel[kernel.len() - 1 - j],
        ) == line_progress(op, src, dst, kernel, start, end, shift, j, done + len),
{
    let before = line_progress(op, src, dst, kernel, start, end, shift, j, done);
    let a = combined_at(&op, src, before, src_start, start + shift + done, len, kernel[kernel.len() - 1 - j]);
    let b = line_progress(op, src, dst, kernel, start, end, shift, j, done + len);
    assert forall|x: int| 0 <= x < dst.len() implies a[x] == b[x] by {
        let d = start + shift + done;
        if d <= x < d + len {
            let i = x - d;
            assert(src[src_start + i] == replicated(src, start + done + i + j - kernel_center(kernel.len() as int)));
            assert(taps_applied(op, dst[x], src, x - shift, kernel, j + 1) == op.combine(
                replicated(src, x - shift + j - kernel_center(kernel.len() as int)),
                taps_applied(op, dst[x], src, x - shift, kernel, j),
                kernel[kernel.len() - (j + 1)],
            ));
        }
    }
    assert(a =~= b);
}

/// Applies every tap of `plan` to one destination line: the source positions
/// `src_interval` of line `src` are filtered into `dst` at `dst_interval`.
pub fn filter_line<T: Copy, O: TapOperator<T>>(
    op: &O,
    src: &[T],
    dst: &mut [T],
    kernel: &[T],
    plan: &Vec<FilterIteration>,
    src_interval: Range<isize>,
    dst_interval: Range<isize>,
)
    requires
        kernel@.len() % 2 == 1,
        plan_inputs_valid(src@.len() as int, kernel@.len() as int, src_interval, dst_interval),
        plan@ == spec_plan(src@.len() as int, kernel@.len() as int, src_interval, dst_interval),
        src_interval.start < src_interval.end,
        dst_interval.start + (src_interval.end - src_interval.start) <= old(dst)@.len(),
    ensures
        final(dst)@ == line_after_taps(
            *op,
            src@,
            old(dst)@,
            kernel@,
            src_interval.start as int,
            src_interval.end as int,
            dst_interval.start - src_interval.start,
            kernel@.len() as int,
        ),
{
    let ghost s = src_interval.start as int;
    let ghost e = src_interval.end as int;
    let ghost shift = dst_interval.start - src_interval.start;
    let ghost dst0 = dst@;
    let ghost c = kernel_center(kernel@.len() as int);
    let n = src.len();
    let dst_len = dst.len();
    let k = kernel.len();
    let w = (src_interval.end - src_interval.start) as usize;
    let d0 = dst_interval.start as usize;
    let mut j: usize = 0;
    while j < plan.len()
        invariant
            n == src@.len(),
            k == kernel@.len(),
            k % 2 == 1,
            plan_inputs_valid(n as int, k as int, src_interval, dst_interval),
            plan@ == spec_plan(n as int, k as int, src_interval, dst_interval),
            s == src_interval.start,
            e == src_interval.end,
            s < e,
            w == e - s,
            shift == dst_interval.start - src_interval.start,
            d0 == dst_interval.start,
            d0 + w <= dst0.len(),
            dst_len == dst0.len(),
            c == kernel_center(k as int),
            j <= plan@.len(),
            dst@ == line_after_taps(*op, src@, dst0, kernel@, s, e, shift, j as int),
        decreases plan@.len() - j,
    {
        let step = plan[j];
        proof {
            lemma_step_values(n, k, src_interval, dst_interval, j as int);
            lemma_plan_edge_replication(n, k, src_interval, dst_interval);
            assert(line_after_taps(*op, src@, dst0, kernel@, s, e, shift, j as int)
                =~= line_progress(*op, src@, dst0, kernel@, s, e, shift, j as int, 0));
        }
        let value = kernel[step.kernel_index];
        let lead = if step.outside_start < w { step.outside_start } else { w };
        let trail = if step.outside_end < w { step.outside_end } else { w };
        let mid = step.src_range.end - step.src_range.start;
        assert(lead + mid + trail == w);

        // Positions before the line read its first pixel.
        let mut o: usize = 0;
        while o < lead
            invariant
                n == src@.len(),
                k == kernel@.len(),
                j < k,
                0 <= s,
                s + w <= n,
                o <= lead,
                lead <= w,
                lead <= step.outside_start,
                step.outside_start == max0(-(s + j - c)),
                value == kernel@[k - 1 - j],
                d0 == s + shift,
                d0 + w <= dst0.len(),
                dst_len == dst0.len(),
                w == e - s,
                e <= n,
                c == kernel_center(k as int),
                dst@ == line_progress(*op, src@, dst0, kernel@, s, e, shift, j as int, o as int),
            decreases lead - o,
        {
            proof {
                assert(src@[0int + 0] == replicated(src@, s + o + 0 + j - c));
                lemma_progress_step(*op, src@, dst0, kernel@, s, e, shift, j as int, o as int, 0, 1);
            }
            combine_range(op, src, 0, dst, d0 + o, 1, value);
            o = o + 1;
        }

        // Positions within the line.
        if mid > 0 {
            proof {
                assert forall|i: int| 0 <= i < mid implies #[trigger] src@[step.src_range.start + i] == replicated(
                    src@,
                    s + lead + i + j - c,
                ) by {}
                lemma_progress_step(*op, src@, dst0, kernel@, s, e, shift, j as int, lead as int, step.src_range.start as int, mid as int);
            }
            combine_range(op, src, step.src_range.start, dst, step.dst_range.start, mid, value);
        }

        // Positions after the line read its last pixel.
        let mut o: usize = 0;
        while o < trail
            invariant
                n == src@.len(),
                k == kernel@.len(),
                j < k,
                0 <= s,
                s + w <= n,
                o <= trail,
                trail <= w,
                trail <= step.outside_end,
                lead + mid + trail == w,
                step.outside_end == max0(e + j - c - n),
                value == kernel@[k - 1 - j],
                d0 == s + shift,
                d0 + w <= dst0.len(),
                dst_len == dst0.len(),
                w == e - s,
                e <= n,
                c == kernel_center(k as int),
                dst@ == line_progress(*op, src@, dst0, kernel@, s, e, shift, j as int, (lead + mid + o) as int),
            decreases trail - o,
        {
            proof {
                assert(src@[(n - 1) as int + 0] == replicated(src@, s + (lead + mid + o) + 0 + j - c));
                lemma_progress_step(*op, src@, dst0, kernel@, s, e, shift, j as int, (lead + mid + o) as int, n - 1, 1);
            }
            combine_range(op, src, n - 1, dst, d0 + w - trail + o, 1, value);
            o = o + 1;
        }
        proof {
            assert(dst@ =~= line_after_taps(*op, src@, dst0, kernel@, s, e, shift, j + 1));
        }
        j = j + 1;
    }
}

} // verus!
