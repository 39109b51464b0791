use vstd::arithmetic::div_mod::{lemma_mod_add_multiples_vanish, lemma_small_mod};
use vstd::prelude::*;

verus! {

/// Pixel values that a convolution accumulates: `acc + k * s`, wrapping
/// around at the bounds of the type.
pub trait Pixel: Copy {
    /// The value zero.
    spec fn spec_zero() -> Self;

    /// The value one.
    spec fn spec_one() -> Self;

    /// `self + k * s`, wrapping around at the bounds of the type.
    spec fn spec_mul_add(self, k: Self, s: Self) -> Self;

    /// Accumulating one times `s` into zero gives `s`.
    proof fn lemma_zero_plus_one_times(s: Self)
        ensures
            Self::spec_zero().spec_mul_add(Self::spec_one(), s) == s,
    ;

    /// `self + k * s`, wrapping around at the bounds of the type.
    fn mul_add(self, k: Self, s: Self) -> (r: Self)
        ensures
            r == self.spec_mul_add(k, s),
    ;
}

/// How one kernel tap combines source pixels into destination pixels.
pub trait TapOperator<T> {
    /// New value of destination pixel `acc` after combining source pixel `src`
    /// with kernel value `k`.
    spec fn combine(&self, src: T, acc: T, k: T) -> T;

    /// Combines `src[i]` into `dst[i]` for every index of both slices.
    fn apply(&self, src: &[T], dst: &mut [T], k: T)
        ensures
            final(dst)@.len() == old(dst)@.len(),
            forall|i: int|
                0 <= i < old(dst)@.len() ==> final(dst)@[i] == if i < src@.len() {
                    self.combine(src@[i], old(dst)@[i], k)
                } else {
                    old(dst)@[i]
                },
    ;
}

/// `dst` with `kernel * src[i]` added to `dst[i]` for every `i` below both lengths.
pub open spec fn multiply_accumulated<T: Pixel>(src: Seq<T>, dst: Seq<T>, kernel: T) -> Seq<T> {
    Seq::new(dst.len(), |i: int| if i < src.len() { dst[i].spec_mul_add(kernel, src[i]) } else { dst[i] })
}

/// Convolution operator: `dst[i] = dst[i] + kernel * src[i]` for every `i`
/// below the length of both slices; the rest of `dst` is left as it is.
pub fn convolution_operator<T: Pixel>(src: &[T], dst: &mut [T], kernel: T)
    ensures
        final(dst)@ == multiply_accumulated(src@, old(dst)@, kernel),
{
    let max = if src.len() < dst.len() { src.len() } else { dst.len() };
    let mut index: usize = 0;
    while index < max
        invariant
            max <= src@.len(),
            max <= dst@.len(),
            index <= max,
            dst@.len() == old(dst)@.len(),
            forall|i: int| 0 <= i < index ==> dst@[i] == (#[trigger] old(dst)@[i]).spec_mul_add(kernel, src@[i]),
            forall|i: int| index <= i < dst@.len() ==> dst@[i] == #[trigger] old(dst)@[i],
        decreases max - index,
    {
        let value = dst[index].mul_add(kernel, src[index]);
        dst[index] = value;
        index = index + 1;
    }
    proof {
        assert(dst@ =~= multiply_accumulated(src@, old(dst)@, kernel));
    }
}

/// The multiply-accumulate combination of convolution filters.
#[derive(Clone, Copy, PartialEq, Eq, Hash, Debug)]
pub struct Convolution;

impl<T: Pixel> TapOperator<T> for Convolution {
    open spec fn combine(&self, src: T, acc: T, k: T) -> T {
        acc.spec_mul_add(k, src)
    }

    fn apply(&self, src: &[T], dst: &mut [T], k: T) {
        convolution_operator(src, dst, k);
    }
}

impl Pixel for i8 {
    open spec fn spec_zero() -> i8 {
        0
    }

    open spec fn spec_one() -> i8 {
        1
    }

    open spec fn spec_mul_add(self, k: i8, s: i8) -> i8 {
        self.wrapping_add(k.wrapping_mul(s))
    }

    proof fn lemma_zero_plus_one_times(s: i8) {
    }

    fn mul_add(self, k: i8, s: i8) -> i8 {
        self.wrapping_add(k.wrapping_mul(s))
    }
}

impl Pixel for i16 {
    open spec fn spec_zero() -> i16 {
        0
    }

    open spec fn spec_one() -> i16 {
        1
    }

    open spec fn spec_mul_add(self, k: i16, s: i16) -> i16 {
        self.wrapping_add(k.wrapping_mul(s))
    }

    proof fn lemma_zero_plus_one_times(s: i16) {
    }

    fn mul_add(self, k: i16, s: i16) -> i16 {
        self.wrapping_add(k.wrapping_mul(s))
    }
}

impl Pixel for i32 {
    open spec fn spec_zero() -> i32 {
        0
    }

    open spec fn spec_one() -> i32 {
        1
    }

    open spec fn spec_mul_add(self, k: i32, s: i32) -> i32 {
        self.wrapping_add(k.wrapping_mul(s))
    }

    proof fn lemma_zero_plus_one_times(s: i32) {
    }

    fn mul_add(self, k: i32, s: i32) -> i32 {
        self.wrapping_add(k.wrapping_mul(s))
    }
}

impl Pixel for i64 {
    open spec fn spec_zero() -> i64 {
        0
    }

    open spec fn spec_one() -> i64 {
        1
    }

    open spec fn spec_mul_add(self, k: i64, s: i64) -> i64 {
        self.wrapping_add(k.wrapping_mul(s))
    }

    proof fn lemma_zero_plus_one_times(s: i64) {
    }

    fn mul_add(self, k: i64, s: i64) -> i64 {
        self.wrapping_add(k.wrapping_mul(s))
    }
}

impl Pixel for isize {
    open spec fn spec_zero() -> isize {
        0
    }

    open spec fn spec_one() -> isize {
        1
    }

    open spec fn spec_mul_add(self, k: isize, s: isize) -> isize {
        self.wrapping_add(k.wrapping_mul(s))
    }

    proof fn lemma_zero_plus_one_times(s: isize) {
        let m: int = usize::MAX - usize::MIN + 1;
        if s >= 0 {
            lemma_small_mod(s as nat, m as nat);
        } else {
            lemma_mod_add_multiples_vanish(s as int, m);
            lemma_small_mod((s + m) as nat, m as nat);
        }
    }

    fn mul_add(self, k: isize, s: isize) -> isize {
        self.wrapping_add(k.wrapping_mul(s))
    }
}

impl Pixel for u8 {
    open spec fn spec_zero() -> u8 {
        0
    }

    open spec fn spec_one() -> u8 {
        1
    }

    open spec fn spec_mul_add(self, k: u8, s: u8) -> u8 {
        self.wrapping_add(k.wrapping_mul(s))
    }

    proof fn lemma_zero_plus_one_times(s: u8) {
    }

    fn mul_add(self, k: u8, s: u8) -> u8 {
        self.wrapping_add(k.wrapping_mul(s))
    }
}

impl Pixel for u16 {
    open spec fn spec_zero() -> u16 {
        0
    }

    open spec fn spec_one() -> u16 {
        1
    }

    open spec fn spec_mul_add(self, k: u16, s: u16) -> u16 {
        self.wrapping_add(k.wrapping_mul(s))
    }

    proof fn lemma_zero_plus_one_times(s: u16) {
    }

    fn mul_add(self, k: u16, s: u16) -> u16 {
        self.wrapping_add(k.wrapping_mul(s))
    }
}

impl Pixel for u32 {
    open spec fn spec_zero() -> u32 {
        0
    }

    open spec fn spec_one() -> u32 {
        1
    }

    open spec fn spec_mul_add(self, k: u32, s: u32) -> u32 {
        self.wrapping_add(k.wrapping_mul(s))
    }

    proof fn lemma_zero_plus_one_times(s: u32) {
    }

    fn mul_add(self, k: u32, s: u32) -> u32 {
        self.wrapping_add(k.wrapping_mul(s))
    }
}

impl Pixel for u64 {
    open spec fn spec_zero() -> u64 {
        0
    }

    open spec fn spec_one() -> u64 {
        1
    }

    open spec fn spec_mul_add(self, k: u64, s: u64) -> u64 {
        self.wrapping_add(k.wrapping_mul(s))
    }

    proof fn lemma_zero_plus_one_times(s: u64) {
    }

    fn mul_add(self, k: u64, s: u64) -> u64 {
        self.wrapping_add(k.wrapping_mul(s))
    }
}

impl Pixel for usize {
    open spec fn spec_zero() -> usize {
        0
    }

    open spec fn spec_one() -> usize {
        1
    }

    open spec fn spec_mul_add(self, k: usize, s: usize) -> usize {
        self.wrapping_add(k.wrapping_mul(s))
    }

    proof fn lemma_zero_plus_one_times(s: usize) {
        lemma_small_mod(s as nat, (usize::MAX - usize::MIN + 1) as nat);
    }

    fn mul_add(self, k: usize, s: usize) -> usize {
        self.wrapping_add(k.wrapping_mul(s))
    }
}

} // verus!
