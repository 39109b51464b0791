use super::horizontal::{filter_inputs_valid, zero_lines};
use super::line::{combine_range, combined_at, replicated, taps_applied};
use super::operator::{Convolution, Pixel, TapOperator};
use super::plan::{
    clamp, create_filter_plan, kernel_center, lemma_plan_edge_replication, lemma_step_values, plan_inputs_valid,
    spec_plan, FilterError,
};
use crate::geometry::mapping::spec_mapping;
use crate::geometry::range::min_int;
use crate::geometry::{ImageMapping, ImgRange, Range, Range2d, Vec2d};
use crate::image::{spec_img_range, Img, ImgMut, ImgSize};
use vstd::prelude::*;

verus! {

/// Column `x` of an image, top to bottom.
pub open spec fn column<T>(lines: Seq<Seq<T>>, x: int) -> Seq<T> {
    Seq::new(lines.len(), |y: int| lines[y][x])
}

/// Lines of `output` after the first `j` taps of a vertical pass over the
/// source area `src` moved by `shift`, the first `done` lines of the area one
/// tap further.
pub open spec fn vertical_progress<T, O: TapOperator<T>>(
    op: O,
    input: Seq<Seq<T>>,
    output: Seq<Seq<T>>,
    kernel: Seq<T>,
    src: Range2d<usize>,
    shift: Vec2d<isize>,
    j: int,
    done: int,
) -> Seq<Seq<T>> {
    Seq::new(
        output.len(),
        |y: int|
            Seq::new(
                output[y].len(),
                |x: int|
                    if src.x.start <= x - shift.x < src.x.end && src.y.start <= y - shift.y < src.y.end {
                        taps_applied(
                            op,
                            output[y][x],
                            column(input, x - shift.x),
                            y - shift.y,
                            kernel,
                            if y - shift.y - src.y.start < done { j + 1 } else { j },
                        )
                    } else {
                        output[y][x]
                    },
            ),
    )
}

/// Lines of `output` after a vertical pass: each column of the mapped source
/// area is filtered into the column it maps to, so that exactly the pixels of
/// the mapped destination area (the source area moved by the shift) change;
/// every other pixel keeps its value.
pub open spec fn vertical_filtered<T, O: TapOperator<T>>(op: O, input: Seq<Seq<T>>, output: Seq<Seq<T>>, kernel: Seq<T>, m: ImageMapping) -> Seq<Seq<T>> {
    vertical_progress(op, input, output, kernel, m.src, m.shift, kernel.len() as int, 0)
}

/// The source line that tap `j` reads for the line at offset `o` of the
/// source interval: the first line before the image, the last line after it.
proof fn lemma_tap_source_line(n: usize, k: usize, src_iv: Range<isize>, dst_iv: Range<isize>, j: int, o: int)
    requires
        plan_inputs_valid(n as int, k as int, src_iv, dst_iv),
        k % 2 == 1,
        0 <= j < k,
        0 <= o < src_iv.end - src_iv.start,
    ensures
        ({
            let step = spec_plan(n as int, k as int, src_iv, dst_iv)[j];
            let w = src_iv.end - src_iv.start;
            let lead = min_int(step.outside_start as int, w);
            let mid = step.src_range.end - step.src_range.start;
            let row = if o < lead { 0 } else if o < lead + mid { step.src_range.start + (o - lead) } else { n - 1 };
            &&& 0 <= row < n
            &&& row == clamp(src_iv.start + o + j - kernel_center(k as int), 0, n - 1)
        }),
{
    lemma_step_values(n, k, src_iv, dst_iv, j);
    lemma_plan_edge_replication(n, k, src_iv, dst_iv);
}

/// Combining line `row` of the input into the next line of the area moves
/// that line one tap further.
proof fn lemma_vertical_step<T, O: TapOperator<T>>(
    op: O,
    input: Seq<Seq<T>>,
    output: Seq<Seq<T>>,
    kernel: Seq<T>,
    src: Range2d<usize>,
    shift: Vec2d<isize>,
    j: int,
    done: int,
    row: int,
)
    requires
        0 <= j < kernel.len(),
        0 <= done < src.y.end - src.y.start,
        src.x.start <= src.x.end,
        0 <= src.x.start + shift.x,
        src.x.end + shift.x <= output[src.y.start + shift.y + done].len(),
        0 <= src.y.start + shift.y,
        src.y.end + shift.y <= output.len(),
        0 <= row < input.len(),
        forall|y: int| 0 <= y < input.len() ==> src.x.end <= (#[trigger] input[y]).len(),
        row == clamp(src.y.start + done + j - kernel_center(kernel.len() as int), 0, input.len() - 1),
    ensures
        ({
            let before = vertical_progress(op, input, output, kernel, src, shift, j, done);
            let y = src.y.start + shift.y + done;
            before.update(
                y,
                combined_at(
                    &op,
                    input[row],
                    before[y],
                    src.x.start as int,
                    src.x.start + shift.x,
                    src.x.end - src.x.start,
                    kernel[kernel.len() - 1 - j],
                ),
            ) == vertical_progress(op, input, output, kernel, src, shift, j, done + 1)
        }),
{
    let before = vertical_progress(op, input, output, kernel, src, shift, j, done);
    let after = vertical_progress(op, input, output, kernel, src, shift, j, done + 1);
    let y = src.y.start + shift.y + done;
    let c = kernel_center(kernel.len() as int);
    let updated = before.update(
        y,
        combined_at(&op, input[row], before[y], src.x.start as int, src.x.start + shift.x, src.x.end - src.x.start, kernel[kernel.len() - 1 - j]),
    );
    assert forall|yy: int| 0 <= yy < output.len() implies #[trigger] updated[yy] == after[yy] by {
        if yy == y {
            assert forall|x: int| 0 <= x < output[y].len() implies updated[y][x] == after[y][x] by {
                if src.x.start <= x - shift.x < src.x.end {
                    let sx = x - shift.x;
                    assert(column(input, sx)[row] == input[row][sx]);
                    assert(replicated(column(input, sx), y - shift.y + j - c) == input[row][sx]);
                    assert(taps_applied(op, output[y][x], column(input, sx), y - shift.y, kernel, j + 1) == op.combine(
                        replicated(column(input, sx), y - shift.y + j - c),
                        taps_applied(op, output[y][x], column(input, sx), y - shift.y, kernel, j),
                        kernel[kernel.len() - (j + 1)],
                    ));
                }
            }
            assert(updated[y] =~= after[y]);
        } else {
            assert(updated[yy] =~= after[yy]);
        }
    }
    assert(updated =~= after);
}

/// Vertical filter over the whole of both images.
///
/// The input is treated as infinite, replicating its first and last line
/// outward. Fails, leaving `output` as it is, when the kernel has an even
/// number of coefficients.
pub fn vertical_filter<T: Copy, I: Img<T>, O: ImgMut<T>, Op: TapOperator<T>>(input: &I, output: &mut O, kernel: &[T], operator: Op) -> (r: Result<(), FilterError>)
    requires
        input.wf(),
        old(output).wf(),
        kernel@.len() % 2 == 1 ==> filter_inputs_valid(
            input.spec_size(),
            old(output).spec_size(),
            kernel@.len() as int,
            spec_img_range(input.spec_size()),
            spec_img_range(old(output).spec_size()),
        ),
    ensures
        final(output).wf(),
        final(output).spec_size() == old(output).spec_size(),
        r is Err <==> kernel@.len() % 2 == 0,
        r is Err ==> r == Err::<(), FilterError>(FilterError::EvenKernel) && final(output).spec_lines() == old(output).spec_lines(),
        r is Ok ==> final(output).spec_lines() == vertical_filtered(
            operator,
            input.spec_lines(),
            old(output).spec_lines(),
            kernel@,
            spec_mapping(
                spec_img_range(input.spec_size()),
                spec_img_range(old(output).spec_size()),
                spec_img_range(input.spec_size()),
                spec_img_range(old(output).spec_size()),
            ),
        ),
{
    if kernel.len() % 2 == 0 {
        return Err(FilterError::EvenKernel);
    }
    let input_range = input.range();
    let output_range = output.range();
    vertical_filter_range(input, output, kernel, input_range, output_range, operator)
}

/// Vertical filter of the area `input_range` of `input` into the area
/// `output_range` of `output`.
///
/// The two areas are mapped onto each other (see `ImageMapping::new`): only
/// the mapped destination area, which is the mapped source area moved by the
/// shift, is written; each column of it is filtered into the column it maps to,
/// each pixel combined with `operator` once for every kernel coefficient in
/// turn. The input is treated as infinite, replicating its first and last
/// line outward. Fails, leaving `output` as it is, when the kernel has an even
/// number of coefficients.
pub fn vertical_filter_range<T: Copy, I: Img<T>, O: ImgMut<T>, Op: TapOperator<T>>(
    input: &I,
    output: &mut O,
    kernel: &[T],
    input_range: ImgRange,
    output_range: ImgRange,
    operator: Op,
) -> (r: Result<(), FilterError>)
    requires
        input.wf(),
        old(output).wf(),
        kernel@.len() % 2 == 1 ==> filter_inputs_valid(
            input.spec_size(),
            old(output).spec_size(),
            kernel@.len() as int,
            input_range,
            output_range,
        ),
    ensures
        final(output).wf(),
        final(output).spec_size() == old(output).spec_size(),
        r is Err <==> kernel@.len() % 2 == 0,
        r is Err ==> r == Err::<(), FilterError>(FilterError::EvenKernel) && final(output).spec_lines() == old(output).spec_lines(),
        r is Ok ==> final(output).spec_lines() == vertical_filtered(
            operator,
            input.spec_lines(),
            old(output).spec_lines(),
            kernel@,
            spec_mapping(input_range, output_range, spec_img_range(input.spec_size()), spec_img_range(old(output).spec_size())),
        ),
{
    if kernel.len() % 2 == 0 {
        return Err(FilterError::EvenKernel);
    }
    let ghost out0 = output.spec_lines();
    let ghost in_lines = input.spec_lines();
    proof {
        input.lemma_shape();
        output.lemma_shape();
    }
    let input_area = input.range();
    let output_area = output.range();
    let mapping = ImageMapping::new(input_range, output_range, input_area, output_area);
    let ghost expected = vertical_filtered(operator, in_lines, out0, kernel@, mapping);
    if mapping.src.x.start >= mapping.src.x.end || mapping.src.y.start >= mapping.src.y.end {
        proof {
            assert forall|y: int| 0 <= y < out0.len() implies #[trigger] expected[y] == out0[y] by {
                assert(expected[y] =~= out0[y]);
            }
            assert(expected =~= out0);
        }
        return Ok(());
    }
    let src_y = Range { start: mapping.src.y.start as isize, end: mapping.src.y.end as isize };
    let dst_y = Range { start: src_y.start + mapping.shift.y, end: src_y.end + mapping.shift.y };
    let n = input.height();
    let k = kernel.len();
    let plan = match create_filter_plan(n, k, src_y, dst_y) {
        Ok(plan) => plan,
        Err(e) => return Err(e),
    };
    let h = mapping.src.y.end - mapping.src.y.start;
    let w = mapping.src.x.end - mapping.src.x.start;
    let top = (src_y.start + mapping.shift.y) as usize;
    let left = (mapping.src.x.start as isize + mapping.shift.x) as usize;
    proof {
        let start = vertical_progress(operator, in_lines, out0, kernel@, mapping.src, mapping.shift, 0, 0);
        assert forall|y: int| 0 <= y < out0.len() implies #[trigger] start[y] == out0[y] by {
            assert(start[y] =~= out0[y]);
        }
        assert(start =~= out0);
    }
    let mut j: usize = 0;
    while j < plan.len()
        invariant
            input.wf(),
            output.wf(),
            input.spec_lines() == in_lines,
            output.spec_size() == old(output).spec_size(),
            n == input.spec_size().y,
            k == kernel@.len(),
            k % 2 == 1,
            in_lines.len() == n,
            forall|i: int| 0 <= i < in_lines.len() ==> (#[trigger] in_lines[i]).len() == input.spec_size().x,
            out0.len() == output.spec_size().y,
            forall|i: int| 0 <= i < out0.len() ==> (#[trigger] out0[i]).len() == output.spec_size().x,
            filter_inputs_valid(input.spec_size(), output.spec_size(), k as int, input_range, output_range),
            mapping.src.x.start < mapping.src.x.end <= input.spec_size().x,
            mapping.src.y.start < mapping.src.y.end <= n,
            h == mapping.src.y.end - mapping.src.y.start,
            w == mapping.src.x.end - mapping.src.x.start,
            top == mapping.src.y.start + mapping.shift.y,
            left == mapping.src.x.start + mapping.shift.x,
            top + h <= output.spec_size().y,
            left + w <= output.spec_size().x,
            src_y.start == mapping.src.y.start,
            src_y.end == mapping.src.y.end,
            dst_y.start == src_y.start + mapping.shift.y,
            plan_inputs_valid(n as int, k as int, src_y, dst_y),
            plan@ == spec_plan(n as int, k as int, src_y, dst_y),
            j <= plan@.len(),
            expected == vertical_filtered(operator, in_lines, out0, kernel@, mapping),
            output.spec_lines() == vertical_progress(operator, in_lines, out0, kernel@, mapping.src, mapping.shift, j as int, 0),
        decreases plan@.len() - j,
    {
        let step = plan[j];
        proof {
            lemma_step_values(n, k, src_y, dst_y, j as int);
            lemma_plan_edge_replication(n, k, src_y, dst_y);
        }
        let value = kernel[step.kernel_index];
        let lead = if step.outside_start < h { step.outside_start } else { h };
        let mid = step.src_range.end - step.src_range.start;
        let mut o: usize = 0;
        while o < h
            invariant
                input.wf(),
                output.wf(),
                input.spec_lines() == in_lines,
                output.spec_size() == old(output).spec_size(),
                n == input.spec_size().y,
                k == kernel@.len(),
                k % 2 == 1,
                j < k,
                in_lines.len() == n,
                forall|i: int| 0 <= i < in_lines.len() ==> (#[trigger] in_lines[i]).len() == input.spec_size().x,
                out0.len() == output.spec_size().y,
                forall|i: int| 0 <= i < out0.len() ==> (#[trigger] out0[i]).len() == output.spec_size().x,
                mapping.src.x.start < mapping.src.x.end <= input.spec_size().x,
                mapping.src.y.start < mapping.src.y.end <= n,
                h == mapping.src.y.end - mapping.src.y.start,
                w == mapping.src.x.end - mapping.src.x.start,
                top == mapping.src.y.start + mapping.shift.y,
                left == mapping.src.x.start + mapping.shift.x,
                top + h <= output.spec_size().y,
                left + w <= output.spec_size().x,
                src_y.start == mapping.src.y.start,
                src_y.end == mapping.src.y.end,
                plan_inputs_valid(n as int, k as int, src_y, dst_y),
                plan@ == spec_plan(n as int, k as int, src_y, dst_y),
                step == plan@[j as int],
                value == kernel@[k - 1 - j],
                lead == min_int(step.outside_start as int, h as int),
                mid == step.src_range.end - step.src_range.start,
                o <= h,
                output.spec_lines() == vertical_progress(operator, in_lines, out0, kernel@, mapping.src, mapping.shift, j as int, o as int),
            decreases h - o,
        {
            let row = if o < lead {
                0
            } else if o < lead + mid {
                step.src_range.start + (o - lead)
            } else {
                n - 1
            };
            proof {
                lemma_tap_source_line(n, k, src_y, dst_y, j as int, o as int);
                lemma_vertical_step(operator, in_lines, out0, kernel@, mapping.src, mapping.shift, j as int, o as int, row as int);
            }
            let src_line = input.line_ref(row);
            let dst_line = output.line_mut(top + o);
            combine_range(&operator, src_line, mapping.src.x.start, dst_line, left, w, value);
            o = o + 1;
        }
        proof {
            let a = vertical_progress(operator, in_lines, out0, kernel@, mapping.src, mapping.shift, j as int, h as int);
            let b = vertical_progress(operator, in_lines, out0, kernel@, mapping.src, mapping.shift, j + 1, 0);
            assert forall|y: int| 0 <= y < out0.len() implies #[trigger] a[y] == b[y] by {
                assert(a[y] =~= b[y]);
            }
            assert(a =~= b);
        }
        j = j + 1;
    }
    Ok(())
}

/// Filtering an image vertically with the single-tap kernel `[1]` into a zero
/// image of the same size, over both whole images, reproduces the image
/// exactly, for every size including 0×0.
pub proof fn lemma_vertical_identity_kernel<T: Pixel>(input: Seq<Seq<T>>, size: ImgSize)
    requires
        input.len() == size.y,
        forall|y: int| 0 <= y < input.len() ==> (#[trigger] input[y]).len() == size.x,
        size.x <= isize::MAX,
        size.y <= isize::MAX,
    ensures
        vertical_filtered(
            Convolution,
            input,
            zero_lines(size),
            seq![T::spec_one()],
            spec_mapping(spec_img_range(size), spec_img_range(size), spec_img_range(size), spec_img_range(size)),
        ) == input,
{
    let result = vertical_filtered(
        Convolution,
        input,
        zero_lines(size),
        seq![T::spec_one()],
        spec_mapping(spec_img_range(size), spec_img_range(size), spec_img_range(size), spec_img_range(size)),
    );
    assert forall|y: int| 0 <= y < size.y implies #[trigger] result[y] == input[y] by {
        assert forall|x: int| 0 <= x < size.x implies #[trigger] result[y][x] == input[y][x] by {
            T::lemma_zero_plus_one_times(input[y][x]);
            let kernel = seq![T::spec_one()];
            assert(kernel_center(1) == 0);
            assert(kernel.len() == 1 && kernel[0] == T::spec_one());
            assert(taps_applied(Convolution, T::spec_zero(), column(input, x), y, kernel, 0) == T::spec_zero());
            assert(taps_applied(Convolution, T::spec_zero(), column(input, x), y, kernel, 1) == Convolution.combine(
                replicated(column(input, x), y),
                T::spec_zero(),
                T::spec_one(),
            ));
            assert(taps_applied(Convolution, T::spec_zero(), column(input, x), y, kernel, 1) == T::spec_zero().spec_mul_add(
                T::spec_one(),
                replicated(column(input, x), y),
            ));
            assert(column(input, x)[y] == input[y][x]);
        }
        assert(result[y] =~= input[y]);
    }
    assert(result =~= input);
}

} // verus!
