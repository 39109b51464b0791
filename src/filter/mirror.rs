use crate::image::{Img, ImgBuf, ImgMut};
use vstd::prelude::*;

verus! {

/// Writes `src` reversed into `dst`.
fn reverse_line<T: Copy>(src: &[T], dst: &mut [T])
    requires
        src@.len() == old(dst)@.len(),
    ensures
        final(dst)@ == src@.reverse(),
{
    let n = src.len();
    let mut column: usize = 0;
    while column < n
        invariant
            n == src@.len(),
            dst@.len() == n,
            column <= n,
            forall|x: int| 0 <= x < column ==> dst@[x] == src@[n - 1 - x],
        decreases n - column,
    {
        dst[column] = src[n - 1 - column];
        column = column + 1;
    }
    proof {
        assert(dst@ =~= src@.reverse());
    }
}

/// Copies `src` into `dst`.
fn copy_line<T: Copy>(src: &[T], dst: &mut [T])
    requires
        src@.len() == old(dst)@.len(),
    ensures
        final(dst)@ == src@,
{
    let n = src.len();
    let mut column: usize = 0;
    while column < n
        invariant
            n == src@.len(),
            dst@.len() == n,
            column <= n,
            forall|x: int| 0 <= x < column ==> dst@[x] == src@[x],
        decreases n - column,
    {
        dst[column] = src[column];
        column = column + 1;
    }
    proof {
        assert(dst@ =~= src@);
    }
}

/// New image with each line of `input` reversed (mirrored left to right).
pub fn mirror_horizontal_new<T: Copy + Default, I: Img<T>>(input: &I) -> (r: ImgBuf<T>)
    requires
        input.wf(),
        input.spec_size().x * input.spec_size().y <= usize::MAX,
    ensures
        r.wf(),
        r.spec_size() == input.spec_size(),
        forall|y: int| 0 <= y < input.spec_size().y ==> (#[trigger] r.spec_lines()[y]) == input.spec_lines()[y].reverse(),
{
    proof {
        input.lemma_shape();
    }
    let size = input.size();
    let mut output: ImgBuf<T> = ImgBuf::new(size);
    let mut line: usize = 0;
    while line < size.y
        invariant
            input.wf(),
            output.wf(),
            size == input.spec_size(),
            output.spec_size() == size,
            input.spec_lines().len() == size.y,
            forall|i: int| 0 <= i < size.y ==> (#[trigger] input.spec_lines()[i]).len() == size.x,
            line <= size.y,
            forall|y: int| 0 <= y < line ==> (#[trigger] output.spec_lines()[y]) == input.spec_lines()[y].reverse(),
        decreases size.y - line,
    {
        proof {
            output.lemma_shape();
        }
        let src = input.line_ref(line);
        let dst = output.line_mut(line);
        reverse_line(src, dst);
        line = line + 1;
    }
    output
}

/// New image with the lines of `input` in reverse order (mirrored top to bottom).
pub fn mirror_vertical_new<T: Copy + Default, I: Img<T>>(input: &I) -> (r: ImgBuf<T>)
    requires
        input.wf(),
        input.spec_size().x * input.spec_size().y <= usize::MAX,
    ensures
        r.wf(),
        r.spec_size() == input.spec_size(),
        r.spec_lines() == input.spec_lines().reverse(),
{
    proof {
        input.lemma_shape();
    }
    let size = input.size();
    let mut output: ImgBuf<T> = ImgBuf::new(size);
    let mut line: usize = 0;
    while line < size.y
        invariant
            input.wf(),
            output.wf(),
            size == input.spec_size(),
            output.spec_size() == size,
            input.spec_lines().len() == size.y,
            forall|i: int| 0 <= i < size.y ==> (#[trigger] input.spec_lines()[i]).len() == size.x,
            line <= size.y,
            forall|y: int| 0 <= y < line ==> output.spec_lines()[size.y - 1 - y] == #[trigger] input.spec_lines()[y],
        decreases size.y - line,
    {
        proof {
            output.lemma_shape();
        }
        let src = input.line_ref(line);
        let dst = output.line_mut(size.y - 1 - line);
        copy_line(src, dst);
        line = line + 1;
    }
    proof {
        output.lemma_shape();
        assert forall|y: int| 0 <= y < size.y implies #[trigger] output.spec_lines()[y] == input.spec_lines().reverse()[y] by {
            assert(output.spec_lines()[size.y - 1 - (size.y - 1 - y)] == input.spec_lines()[size.y - 1 - y]);
        }
        assert(output.spec_lines() =~= input.spec_lines().reverse());
    }
    output
}

} // verus!
