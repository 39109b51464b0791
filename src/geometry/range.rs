use vstd::prelude::*;

verus! {

/// A half-open range `[start, end)`, like `std::ops::Range` but `Copy`.
///
/// A range whose `end` is not greater than its `start` is empty.
#[derive(Clone, Copy, PartialEq, Eq, Hash, Debug)]
pub struct Range<T> {
    pub start: T,
    pub end: T,
}

impl<T> Range<T> {
    /// New range with the bounds of a `std::ops::Range`.
    pub fn new(range: std::ops::Range<T>) -> (r: Self)
        ensures
            r.start == range.start,
            r.end == range.end,
    {
        Range { start: range.start, end: range.end }
    }
}

impl<T: Copy> Range<T> {
    /// The same bounds as a `std::ops::Range`.
    pub fn to_range(&self) -> (r: std::ops::Range<T>)
        ensures
            r.start == self.start,
            r.end == self.end,
    {
        self.start..self.end
    }
}

/// Larger of two integers.
pub open spec fn max_int(a: int, b: int) -> int {
    if a >= b { a } else { b }
}

/// Smaller of two integers.
pub open spec fn min_int(a: int, b: int) -> int {
    if a <= b { a } else { b }
}

impl Range<isize> {
    /// Number of elements, negative for a reversed range.
    pub open spec fn spec_length(self) -> int {
        self.end - self.start
    }

    /// Number of elements of the range.
    pub fn length(&self) -> (r: isize)
        requires
            isize::MIN <= self.spec_length() <= isize::MAX,
        ensures
            r == self.spec_length(),
    {
        self.end - self.start
    }

    /// Largest range contained in both ranges (empty when they do not overlap).
    pub fn intersect(&self, other: Range<isize>) -> (r: Self)
        ensures
            r.start == max_int(self.start as int, other.start as int),
            r.end == min_int(self.end as int, other.end as int),
    {
        let start = if self.start >= other.start { self.start } else { other.start };
        let end = if self.end <= other.end { self.end } else { other.end };
        Range { start, end }
    }
}

impl Range<usize> {
    /// Number of elements of the range.
    pub fn length(&self) -> (r: usize)
        requires
            self.start <= self.end,
        ensures
            r == self.end - self.start,
    {
        self.end - self.start
    }

    /// Largest range contained in both ranges (empty when they do not overlap).
    pub fn intersect(&self, other: Range<usize>) -> (r: Self)
        ensures
            r.start == max_int(self.start as int, other.start as int),
            r.end == min_int(self.end as int, other.end as int),
    {
        let start = if self.start >= other.start { self.start } else { other.start };
        let end = if self.end <= other.end { self.end } else { other.end };
        Range { start, end }
    }
}

/// Range moved by a scalar; coordinates wrap around at the bounds of `isize`.
impl std::ops::Add<isize> for Range<isize> {
    type Output = Range<isize>;

    fn add(self, scalar: isize) -> (r: Range<isize>) {
        Range { start: self.start.wrapping_add(scalar), end: self.end.wrapping_add(scalar) }
    }
}

impl vstd::std_specs::ops::AddSpecImpl<isize> for Range<isize> {
    open spec fn obeys_add_spec() -> bool {
        true
    }

    open spec fn add_req(self, scalar: isize) -> bool {
        true
    }

    open spec fn add_spec(self, scalar: isize) -> Range<isize> {
        Range { start: self.start.wrapping_add(scalar), end: self.end.wrapping_add(scalar) }
    }
}

/// Range moved back by a scalar; coordinates wrap around at the bounds of `isize`.
impl std::ops::Sub<isize> for Range<isize> {
    type Output = Range<isize>;

    fn sub(self, scalar: isize) -> (r: Range<isize>) {
        Range { start: self.start.wrapping_sub(scalar), end: self.end.wrapping_sub(scalar) }
    }
}

impl vstd::std_specs::ops::SubSpecImpl<isize> for Range<isize> {
    open spec fn obeys_sub_spec() -> bool {
        true
    }

    open spec fn sub_req(self, scalar: isize) -> bool {
        true
    }

    open spec fn sub_spec(self, scalar: isize) -> Range<isize> {
        Range { start: self.start.wrapping_sub(scalar), end: self.end.wrapping_sub(scalar) }
    }
}

/// A range with the bounds of a `std::ops::Range`.
impl<T> From<std::ops::Range<T>> for Range<T> {
    fn from(range: std::ops::Range<T>) -> (r: Range<T>) {
        Range { start: range.start, end: range.end }
    }
}

impl<T> vstd::std_specs::convert::FromSpecImpl<std::ops::Range<T>> for Range<T> {
    open spec fn obeys_from_spec() -> bool {
        true
    }

    open spec fn from_spec(range: std::ops::Range<T>) -> Range<T> {
        Range { start: range.start, end: range.end }
    }
}

/// A `std::ops::Range` with the bounds of a range.
impl<T> From<Range<T>> for std::ops::Range<T> {
    fn from(range: Range<T>) -> (r: std::ops::Range<T>) {
        range.start..range.end
    }
}

impl<T> vstd::std_specs::convert::FromSpecImpl<Range<T>> for std::ops::Range<T> {
    open spec fn obeys_from_spec() -> bool {
        true
    }

    open spec fn from_spec(range: Range<T>) -> std::ops::Range<T> {
        range.start..range.end
    }
}

/// Unsigned bounds from signed ones by `as` conversion: meaningful only for bounds that are not negative.
impl From<Range<isize>> for Range<usize> {
    fn from(range: Range<isize>) -> (r: Range<usize>) {
        Range { start: range.start as usize, end: range.end as usize }
    }
}

impl vstd::std_specs::convert::FromSpecImpl<Range<isize>> for Range<usize> {
    open spec fn obeys_from_spec() -> bool {
        true
    }

    open spec fn from_spec(range: Range<isize>) -> Range<usize> {
        Range { start: range.start as usize, end: range.end as usize }
    }
}

/// Signed bounds from unsigned ones by `as` conversion: meaningful only for bounds up to `isize::MAX`.
impl From<Range<usize>> for Range<isize> {
    fn from(range: Range<usize>) -> (r: Range<isize>) {
        Range { start: range.start as isize, end: range.end as isize }
    }
}

impl vstd::std_specs::convert::FromSpecImpl<Range<usize>> for Range<isize> {
    open spec fn obeys_from_spec() -> bool {
        true
    }

    open spec fn from_spec(range: Range<usize>) -> Range<isize> {
        Range { start: range.start as isize, end: range.end as isize }
    }
}

} // verus!
