use super::line::{filter_line, line_after_taps, replicated, taps_applied};
use super::operator::{Convolution, Pixel, TapOperator};
use super::plan::{create_filter_plan, kernel_center, FilterError};
use crate::geometry::mapping::{mapping_fits, spec_mapping};
use crate::geometry::{ImageMapping, ImgRange, Range};
use crate::image::{spec_img_range, Img, ImgMut, ImgSize};
use vstd::prelude::*;

verus! {

/// What a filter pass needs of its inputs: image sizes and kernel length whose
/// sums fit in `isize`, and requested areas whose mapping can be computed.
pub open spec fn filter_inputs_valid(input_size: ImgSize, output_size: ImgSize, kernel_len: int, input_range: ImgRange, output_range: ImgRange) -> bool {
    &&& input_size.x + kernel_len <= isize::MAX
    &&& input_size.y + kernel_len <= isize::MAX
    &&& output_size.x + kernel_len <= isize::MAX
    &&& output_size.y + kernel_len <= isize::MAX
    &&& mapping_fits(input_range, output_range, spec_img_range(input_size), spec_img_range(output_size))
}

/// Lines of `output` after a horizontal pass: each line of the mapped source
/// area is filtered into the line it maps to, at the mapped columns, so that
/// exactly the pixels of the mapped destination area (the source area moved
/// by the shift) change; every other pixel keeps its value.
pub open spec fn horizontal_filtered<T, O: TapOperator<T>>(op: O, input: Seq<Seq<T>>, output: Seq<Seq<T>>, kernel: Seq<T>, m: ImageMapping) -> Seq<Seq<T>> {
    Seq::new(
        output.len(),
        |y: int|
            if m.src.y.start <= y - m.shift.y < m.src.y.end {
                line_after_taps(
                    op,
                    input[y - m.shift.y],
                    output[y],
                    kernel,
                    m.src.x.start as int,
                    m.src.x.end as int,
                    m.shift.x as int,
                    kernel.len() as int,
                )
            } else {
                output[y]
            },
    )
}

/// Horizontal filter over the whole of both images.
///
/// The input is treated as infinite, replicating its first and last pixel of
/// each line outward. Fails, leaving `output` as it is, when the kernel has
/// an even number of coefficients.
pub fn horizontal_filter<T: Copy, I: Img<T>, O: ImgMut<T>, Op: TapOperator<T>>(input: &I, output: &mut O, kernel: &[T], operator: Op) -> (r: Result<(), FilterError>)
    requires
        input.wf(),
        old(output).wf(),
        kernel@.len() % 2 == 1 ==> filter_inputs_valid(
            input.spec_size(),
            old(output).spec_size(),
            kernel@.len() as int,
            spec_img_range(input.spec_size()),
            spec_img_range(old(output).spec_size()),
        ),
    ensures
        final(output).wf(),
        final(output).spec_size() == old(output).spec_size(),
        r is Err <==> kernel@.len() % 2 == 0,
        r is Err ==> r == Err::<(), FilterError>(FilterError::EvenKernel) && final(output).spec_lines() == old(output).spec_lines(),
        r is Ok ==> final(output).spec_lines() == horizontal_filtered(
            operator,
            input.spec_lines(),
            old(output).spec_lines(),
            kernel@,
            spec_mapping(
                spec_img_range(input.spec_size()),
                spec_img_range(old(output).spec_size()),
                spec_img_range(input.spec_size()),
                spec_img_range(old(output).spec_size()),
            ),
        ),
{
    if kernel.len() % 2 == 0 {
        return Err(FilterError::EvenKernel);
    }
    let input_range = input.range();
    let output_range = output.range();
    horizontal_filter_range(input, output, kernel, input_range, output_range, operator)
}

/// Horizontal filter of the area `input_range` of `input` into the area
/// `output_range` of `output`.
///
/// The two areas are mapped onto each other (see `ImageMapping::new`): only
/// the mapped destination area, which is the mapped source area moved by the
/// shift, is written; each line of it is filtered into the line it maps to, each
/// pixel combined with `operator` once for every kernel coefficient in turn.
/// The input is treated as infinite, replicating its first and last pixel of
/// each line outward. Fails, leaving `output` as it is, when the kernel has an
/// even number of coefficients.
pub fn horizontal_filter_range<T: Copy, I: Img<T>, O: ImgMut<T>, Op: TapOperator<T>>(
    input: &I,
    output: &mut O,
    kernel: &[T],
    input_range: ImgRange,
    output_range: ImgRange,
    operator: Op,
) -> (r: Result<(), FilterError>)
    requires
        input.wf(),
        old(output).wf(),
        kernel@.len() % 2 == 1 ==> filter_inputs_valid(
            input.spec_size(),
            old(output).spec_size(),
            kernel@.len() as int,
            input_range,
            output_range,
        ),
    ensures
        final(output).wf(),
        final(output).spec_size() == old(output).spec_size(),
        r is Err <==> kernel@.len() % 2 == 0,
        r is Err ==> r == Err::<(), FilterError>(FilterError::EvenKernel) && final(output).spec_lines() == old(output).spec_lines(),
        r is Ok ==> final(output).spec_lines() == horizontal_filtered(
            operator,
            input.spec_lines(),
            old(output).spec_lines(),
            kernel@,
            spec_mapping(input_range, output_range, spec_img_range(input.spec_size()), spec_img_range(old(output).spec_size())),
        ),
{
    if kernel.len() % 2 == 0 {
        return Err(FilterError::EvenKernel);
    }
    let ghost out0 = output.spec_lines();
    let ghost in_lines = input.spec_lines();
    proof {
        input.lemma_shape();
        output.lemma_shape();
    }
    let input_area = input.range();
    let output_area = output.range();
    let mapping = ImageMapping::new(input_range, output_range, input_area, output_area);
    let ghost expected = horizontal_filtered(operator, in_lines, out0, kernel@, mapping);
    if mapping.src.x.start >= mapping.src.x.end || mapping.src.y.start >= mapping.src.y.end {
        proof {
            assert forall|y: int| 0 <= y < out0.len() implies #[trigger] expected[y] == out0[y] by {
                if mapping.src.y.start <= y - mapping.shift.y < mapping.src.y.end {
                    assert(expected[y] =~= out0[y]);
                }
            }
            assert(expected =~= out0);
        }
        return Ok(());
    }
    let src_x = Range { start: mapping.src.x.start as isize, end: mapping.src.x.end as isize };
    let dst_x = Range { start: src_x.start + mapping.shift.x, end: src_x.end + mapping.shift.x };
    let plan = match create_filter_plan(input.width(), kernel.len(), src_x, dst_x) {
        Ok(plan) => plan,
        Err(e) => return Err(e),
    };
    let mut y = mapping.src.y.start;
    while y < mapping.src.y.end
        invariant
            input.wf(),
            output.wf(),
            input.spec_lines() == in_lines,
            output.spec_size() == old(output).spec_size(),
            in_lines.len() == input.spec_size().y,
            forall|i: int| 0 <= i < in_lines.len() ==> (#[trigger] in_lines[i]).len() == input.spec_size().x,
            out0.len() == output.spec_size().y,
            forall|i: int| 0 <= i < out0.len() ==> (#[trigger] out0[i]).len() == output.spec_size().x,
            kernel@.len() % 2 == 1,
            filter_inputs_valid(input.spec_size(), output.spec_size(), kernel@.len() as int, input_range, output_range),
            mapping.src.y.start <= y <= mapping.src.y.end,
            mapping.src.x.start < mapping.src.x.end <= input.spec_size().x,
            mapping.src.y.end <= input.spec_size().y,
            0 <= mapping.src.y.start + mapping.shift.y,
            mapping.src.y.end + mapping.shift.y <= output.spec_size().y,
            0 <= mapping.src.x.start + mapping.shift.x,
            mapping.src.x.end + mapping.shift.x <= output.spec_size().x,
            src_x.start == mapping.src.x.start,
            src_x.end == mapping.src.x.end,
            dst_x.start == src_x.start + mapping.shift.x,
            super::plan::plan_inputs_valid(input.spec_size().x as int, kernel@.len() as int, src_x, dst_x),
            plan@ == super::plan::spec_plan(input.spec_size().x as int, kernel@.len() as int, src_x, dst_x),
            expected == horizontal_filtered(operator, in_lines, out0, kernel@, mapping),
            output.spec_lines() == Seq::new(
                out0.len(),
                |yy: int|
                    if mapping.src.y.start <= yy - mapping.shift.y < y {
                        expected[yy]
                    } else {
                        out0[yy]
                    },
            ),
        decreases mapping.src.y.end - y,
    {
        let src_line = input.line_ref(y);
        let out_y = (y as isize + mapping.shift.y) as usize;
        let dst_line = output.line_mut(out_y);
        filter_line(&operator, src_line, dst_line, kernel, &plan, src_x, dst_x);
        y = y + 1;
    }
    proof {
        assert(output.spec_lines() =~= expected);
    }
    Ok(())
}

/// An image of the given size whose pixels are all zero.
pub open spec fn zero_lines<T: Pixel>(size: ImgSize) -> Seq<Seq<T>> {
    Seq::new(size.y as nat, |y: int| Seq::new(size.x as nat, |x: int| T::spec_zero()))
}

/// Filtering an image horizontally with the single-tap kernel `[1]` into a zero
/// image of the same size, over both whole images, reproduces the image
/// exactly, for every size including 0×0.
pub proof fn lemma_horizontal_identity_kernel<T: Pixel>(input: Seq<Seq<T>>, size: ImgSize)
    requires
        input.len() == size.y,
        forall|y: int| 0 <= y < input.len() ==> (#[trigger] input[y]).len() == size.x,
        size.x <= isize::MAX,
        size.y <= isize::MAX,
    ensures
        horizontal_filtered(
            Convolution,
            input,
            zero_lines(size),
            seq![T::spec_one()],
            spec_mapping(spec_img_range(size), spec_img_range(size), spec_img_range(size), spec_img_range(size)),
        ) == input,
{
    let result = horizontal_filtered(
        Convolution,
        input,
        zero_lines(size),
        seq![T::spec_one()],
        spec_mapping(spec_img_range(size), spec_img_range(size), spec_img_range(size), spec_img_range(size)),
    );
    assert forall|y: int| 0 <= y < size.y implies #[trigger] result[y] == input[y] by {
        assert forall|x: int| 0 <= x < size.x implies #[trigger] result[y][x] == input[y][x] by {
            T::lemma_zero_plus_one_times(input[y][x]);
            let kernel = seq![T::spec_one()];
            assert(kernel_center(1) == 0);
            assert(kernel.len() == 1 && kernel[0] == T::spec_one());
            assert(taps_applied(Convolution, T::spec_zero(), input[y], x, kernel, 0) == T::spec_zero());
            assert(taps_applied(Convolution, T::spec_zero(), input[y], x, kernel, 1) == Convolution.combine(
                replicated(input[y], x),
                T::spec_zero(),
                T::spec_one(),
            ));
            assert(taps_applied(Convolution, T::spec_zero(), input[y], x, kernel, 1) == T::spec_zero().spec_mul_add(
                T::spec_one(),
                replicated(input[y], x),
            ));
        }
        assert(result[y] =~= input[y]);
    }
    assert(result =~= input);
}

} // verus!
