use crate::geometry::mapping::{mapping_fits, spec_mapping};
use crate::geometry::range::min_int;
use crate::geometry::{ImageMapping, ImgRange};
use crate::image::{spec_img_range, Img, ImgBuf, ImgMut};
use vstd::prelude::*;

verus! {

/// Whether `result` is `output` with each pixel of the first `rows` lines and
/// `cols` columns of area `dst` replaced by a possible result of `operator`
/// on the pixel of area `src` at the same offset and the old output pixel.
pub open spec fn mapped_pixels<TI, TO, F: Fn(TI, TO) -> TO>(
    operator: F,
    input: Seq<Seq<TI>>,
    output: Seq<Seq<TO>>,
    result: Seq<Seq<TO>>,
    m: ImageMapping,
    rows: int,
    cols: int,
) -> bool {
    &&& result.len() == output.len()
    &&& forall|y: int| 0 <= y < output.len() ==> (#[trigger] result[y]).len() == output[y].len()
    &&& forall|y: int, x: int|
        0 <= y < output.len() && 0 <= x < output[y].len() ==> {
            let dy = y - m.dst.y.start;
            let dx = x - m.dst.x.start;
            if 0 <= dy < rows && 0 <= dx < cols {
                call_ensures(
                    operator,
                    (input[m.src.y.start + dy][m.src.x.start + dx], output[y][x]),
                    #[trigger] result[y][x],
                )
            } else {
                result[y][x] == output[y][x]
            }
        }
}

/// Number of lines mapped: the smaller height of the two mapped areas.
pub open spec fn mapped_rows(m: ImageMapping) -> int {
    min_int(m.src.y.end - m.src.y.start, m.dst.y.end - m.dst.y.start)
}

/// Number of columns mapped: the smaller width of the two mapped areas.
pub open spec fn mapped_cols(m: ImageMapping) -> int {
    min_int(m.src.x.end - m.src.x.start, m.dst.x.end - m.dst.x.start)
}

/// Replaces `dst[dst_start + i]` by `operator(src[src_start + i], dst[dst_start + i])`
/// for every `i < len`.
fn map_line<TI: Copy, TO: Copy, F: Fn(TI, TO) -> TO>(src: &[TI], src_start: usize, dst: &mut [TO], dst_start: usize, len: usize, operator: &F)
    requires
        src_start + len <= src@.len(),
        dst_start + len <= old(dst)@.len(),
        forall|a: TI, b: TO| operator.requires((a, b)),
    ensures
        final(dst)@.len() == old(dst)@.len(),
        forall|x: int|
            0 <= x < old(dst)@.len() ==> {
                let dx = x - dst_start;
                if 0 <= dx < len {
                    call_ensures(*operator, (src@[src_start + dx], old(dst)@[x]), #[trigger] final(dst)@[x])
                } else {
                    final(dst)@[x] == old(dst)@[x]
                }
            },
{
    let dst_len = dst.len();
    let src_len = src.len();
    let mut i: usize = 0;
    while i < len
        invariant
            dst_len == old(dst)@.len(),
            src_len == src@.len(),
            src_start + len <= src@.len(),
            dst_start + len <= old(dst)@.len(),
            dst@.len() == old(dst)@.len(),
            i <= len,
            forall|a: TI, b: TO| operator.requires((a, b)),
            forall|x: int|
                0 <= x < old(dst)@.len() ==> {
                    let dx = x - dst_start;
                    if 0 <= dx < i {
                        call_ensures(*operator, (src@[src_start + dx], old(dst)@[x]), #[trigger] dst@[x])
                    } else {
                        dst@[x] == old(dst)@[x]
                    }
                },
        decreases len - i,
    {
        let value = operator(src[src_start + i], dst[dst_start + i]);
        dst[dst_start + i] = value;
        i = i + 1;
    }
}

/// Maps the pixels of area `input_range` of `input` into area `output_range`
/// of `output`: each output pixel becomes `operator(input pixel, output pixel)`.
///
/// Pixels outside either image are ignored; where the mapped areas differ in
/// size, only their common top-left part is mapped.
pub fn map_range<TI: Copy, TO: Copy, I: Img<TI>, O: ImgMut<TO>, F: Fn(TI, TO) -> TO>(
    input: &I,
    output: &mut O,
    input_range: ImgRange,
    output_range: ImgRange,
    operator: F,
)
    requires
        input.wf(),
        old(output).wf(),
        input.spec_size().x <= isize::MAX,
        input.spec_size().y <= isize::MAX,
        old(output).spec_size().x <= isize::MAX,
        old(output).spec_size().y <= isize::MAX,
        mapping_fits(input_range, output_range, spec_img_range(input.spec_size()), spec_img_range(old(output).spec_size())),
        forall|a: TI, b: TO| operator.requires((a, b)),
    ensures
        final(output).wf(),
        final(output).spec_size() == old(output).spec_size(),
        ({
            let m = spec_mapping(input_range, output_range, spec_img_range(input.spec_size()), spec_img_range(old(output).spec_size()));
            mapped_pixels(operator, input.spec_lines(), old(output).spec_lines(), final(output).spec_lines(), m, mapped_rows(m), mapped_cols(m))
        }),
{
    let ghost in_lines = input.spec_lines();
    let ghost out0 = output.spec_lines();
    proof {
        input.lemma_shape();
        output.lemma_shape();
    }
    let input_area = input.range();
    let output_area = output.range();
    let mapping = ImageMapping::new(input_range, output_range, input_area, output_area);
    let src_h = mapping.src.height();
    let dst_h = mapping.dst.height();
    let rows = if src_h < dst_h { src_h } else { dst_h };
    let src_w = mapping.src.width();
    let dst_w = mapping.dst.width();
    let cols = if src_w < dst_w { src_w } else { dst_w };
    if rows == 0 || cols == 0 {
        return;
    }
    let mut line: usize = 0;
    while line < rows
        invariant
            input.wf(),
            output.wf(),
            input.spec_lines() == in_lines,
            output.spec_size() == old(output).spec_size(),
            in_lines.len() == input.spec_size().y,
            forall|i: int| 0 <= i < in_lines.len() ==> (#[trigger] in_lines[i]).len() == input.spec_size().x,
            out0.len() == output.spec_size().y,
            forall|i: int| 0 <= i < out0.len() ==> (#[trigger] out0[i]).len() == output.spec_size().x,
            mapping == spec_mapping(input_range, output_range, input_area, output_area),
            input_area == spec_img_range(input.spec_size()),
            output_area == spec_img_range(output.spec_size()),
            rows == mapped_rows(mapping),
            cols == mapped_cols(mapping),
            0 < rows,
            0 < cols,
            mapping.src.y.start + rows <= input.spec_size().y,
            mapping.src.x.start + cols <= input.spec_size().x,
            mapping.dst.y.start + rows <= output.spec_size().y,
            mapping.dst.x.start + cols <= output.spec_size().x,
            line <= rows,
            forall|a: TI, b: TO| operator.requires((a, b)),
            mapped_pixels(operator, in_lines, out0, output.spec_lines(), mapping, line as int, cols as int),
        decreases rows - line,
    {
        let src = input.line_ref(mapping.src.y.start + line);
        let dst = output.line_mut(mapping.dst.y.start + line);
        map_line(src, mapping.src.x.start, dst, mapping.dst.x.start, cols, &operator);
        line = line + 1;
    }
}

/// Maps every pixel of `input` onto the pixel at the same position of
/// `output`: each output pixel becomes `operator(input pixel, output pixel)`.
pub fn map<TI: Copy, TO: Copy, I: Img<TI>, O: ImgMut<TO>, F: Fn(TI, TO) -> TO>(input: &I, output: &mut O, operator: F)
    requires
        input.wf(),
        old(output).wf(),
        input.spec_size().x <= isize::MAX,
        input.spec_size().y <= isize::MAX,
        old(output).spec_size().x <= isize::MAX,
        old(output).spec_size().y <= isize::MAX,
        forall|a: TI, b: TO| operator.requires((a, b)),
    ensures
        final(output).wf(),
        final(output).spec_size() == old(output).spec_size(),
        ({
            let m = spec_mapping(
                spec_img_range(input.spec_size()),
                spec_img_range(old(output).spec_size()),
                spec_img_range(input.spec_size()),
                spec_img_range(old(output).spec_size()),
            );
            mapped_pixels(operator, input.spec_lines(), old(output).spec_lines(), final(output).spec_lines(), m, mapped_rows(m), mapped_cols(m))
        }),
{
    let input_range = input.range();
    let output_range = output.range();
    map_range(input, output, input_range, output_range, operator);
}

/// Maps every pixel of `input` into a new image of the same size: each
/// pixel becomes `operator(input pixel)`.
pub fn map_new<TI: Copy, TO: Copy + Default, I: Img<TI>, F: Fn(TI) -> TO>(input: &I, operator: F) -> (r: ImgBuf<TO>)
    requires
        input.wf(),
        input.spec_size().x <= isize::MAX,
        input.spec_size().y <= isize::MAX,
        input.spec_size().x * input.spec_size().y <= usize::MAX,
        forall|a: TI| operator.requires((a,)),
    ensures
        r.wf(),
        r.spec_size() == input.spec_size(),
        forall|y: int, x: int|
            0 <= y < input.spec_size().y && 0 <= x < input.spec_size().x ==> call_ensures(
                operator,
                (input.spec_lines()[y][x],),
                #[trigger] r.spec_lines()[y][x],
            ),
{
    proof {
        input.lemma_shape();
    }
    let mut output: ImgBuf<TO> = ImgBuf::new(input.size());
    proof {
        output.lemma_shape();
    }
    let input_range = input.range();
    let output_range = output.range();
    let op = &operator;
    let apply = |x: TI, old: TO| -> (r: TO)
        requires
            op.requires((x,)),
        ensures
            op.ensures((x,), r),
        { op(x) };
    map_range(input, &mut output, input_range, output_range, apply);
    output
}

} // verus!
