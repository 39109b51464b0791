use vstd::prelude::*;

verus! {

/// `s` with positions `[start, end)` replaced by `part`.
pub open spec fn spliced<T>(s: Seq<T>, start: int, end: int, part: Seq<T>) -> Seq<T> {
    s.subrange(0, start) + part + s.subrange(end, s.len() as int)
}

/// Mutable access to positions `[start, end)` of a slice.
pub fn part_mut<T>(s: &mut [T], start: usize, end: usize) -> (r: &mut [T])
    requires
        start <= end <= old(s)@.len(),
    ensures
        r@ == old(s)@.subrange(start as int, end as int),
        final(s)@ == spliced(old(s)@, start as int, end as int, final(r)@),
{
    let (_, rest) = s.split_at_mut(start);
    let (r, _) = rest.split_at_mut(end - start);
    r
}

/// Read access to positions `[start, end)` of a slice.
pub fn part<T>(s: &[T], start: usize, end: usize) -> (r: &[T])
    requires
        start <= end <= s@.len(),
    ensures
        r@ == s@.subrange(start as int, end as int),
{
    let (_, rest) = s.split_at(start);
    let (r, _) = rest.split_at(end - start);
    r
}

} // verus!
