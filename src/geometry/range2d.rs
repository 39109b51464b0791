use super::range::{max_int, min_int};
use super::{Range, Vec2d};
use vstd::prelude::*;

verus! {

/// A rectangular area given by a half-open range on each axis.
#[derive(Clone, Copy, PartialEq, Eq, Hash, Debug)]
pub struct Range2d<T> {
    pub x: Range<T>,
    pub y: Range<T>,
}

/// An area of an image in signed coordinates, which may lie partly or wholly
/// outside the image before it is clipped.
pub type ImgRange = Range2d<isize>;

impl<T: Copy> Range2d<T> {
    /// New area from a range of columns and a range of lines.
    pub fn new(x: std::ops::Range<T>, y: std::ops::Range<T>) -> (r: Self)
        ensures
            r.x.start == x.start,
            r.x.end == x.end,
            r.y.start == y.start,
            r.y.end == y.end,
    {
        Range2d { x: Range::new(x), y: Range::new(y) }
    }

    /// Top-left corner (inclusive).
    pub fn start(&self) -> (r: Vec2d<T>)
        ensures
            r.x == self.x.start,
            r.y == self.y.start,
    {
        Vec2d::new(self.x.start, self.y.start)
    }

    /// Bottom-right corner (exclusive).
    pub fn end(&self) -> (r: Vec2d<T>)
        ensures
            r.x == self.x.end,
            r.y == self.y.end,
    {
        Vec2d::new(self.x.end, self.y.end)
    }
}

impl Range2d<isize> {
    /// Width of the area (negative for a reversed range of columns).
    pub fn width(&self) -> (r: isize)
        requires
            isize::MIN <= self.x.spec_length() <= isize::MAX,
        ensures
            r == self.x.spec_length(),
    {
        self.x.length()
    }

    /// Height of the area (negative for a reversed range of lines).
    pub fn height(&self) -> (r: isize)
        requires
            isize::MIN <= self.y.spec_length() <= isize::MAX,
        ensures
            r == self.y.spec_length(),
    {
        self.y.length()
    }

    /// Largest area contained in both areas.
    pub fn intersect(&self, other: Range2d<isize>) -> (r: Self)
        ensures
            r.x.start == max_int(self.x.start as int, other.x.start as int),
            r.x.end == min_int(self.x.end as int, other.x.end as int),
            r.y.start == max_int(self.y.start as int, other.y.start as int),
            r.y.end == min_int(self.y.end as int, other.y.end as int),
    {
        Range2d { x: self.x.intersect(other.x), y: self.y.intersect(other.y) }
    }
}

impl Range2d<usize> {
    /// Width of the area.
    pub fn width(&self) -> (r: usize)
        requires
            self.x.start <= self.x.end,
        ensures
            r == self.x.end - self.x.start,
    {
        self.x.length()
    }

    /// Height of the area.
    pub fn height(&self) -> (r: usize)
        requires
            self.y.start <= self.y.end,
        ensures
            r == self.y.end - self.y.start,
    {
        self.y.length()
    }

    /// Largest area contained in both areas.
    pub fn intersect(&self, other: Range2d<usize>) -> (r: Self)
        ensures
            r.x.start == max_int(self.x.start as int, other.x.start as int),
            r.x.end == min_int(self.x.end as int, other.x.end as int),
            r.y.start == max_int(self.y.start as int, other.y.start as int),
            r.y.end == min_int(self.y.end as int, other.y.end as int),
    {
        Range2d { x: self.x.intersect(other.x), y: self.y.intersect(other.y) }
    }
}

/// Area moved by a vector; coordinates wrap around at the bounds of `isize`.
impl std::ops::Add<Vec2d<isize>> for Range2d<isize> {
    type Output = Range2d<isize>;

    fn add(self, vector: Vec2d<isize>) -> (r: Range2d<isize>) {
        Range2d { x: self.x + vector.x, y: self.y + vector.y }
    }
}

impl vstd::std_specs::ops::AddSpecImpl<Vec2d<isize>> for Range2d<isize> {
    open spec fn obeys_add_spec() -> bool {
        true
    }

    open spec fn add_req(self, vector: Vec2d<isize>) -> bool {
        true
    }

    open spec fn add_spec(self, vector: Vec2d<isize>) -> Range2d<isize> {
        moved_by(self, vector.x as int, vector.y as int)
    }
}

/// Area moved back by a vector; coordinates wrap around at the bounds of `isize`.
impl std::ops::Sub<Vec2d<isize>> for Range2d<isize> {
    type Output = Range2d<isize>;

    fn sub(self, vector: Vec2d<isize>) -> (r: Range2d<isize>) {
        Range2d { x: self.x - vector.x, y: self.y - vector.y }
    }
}

impl vstd::std_specs::ops::SubSpecImpl<Vec2d<isize>> for Range2d<isize> {
    open spec fn obeys_sub_spec() -> bool {
        true
    }

    open spec fn sub_req(self, vector: Vec2d<isize>) -> bool {
        true
    }

    open spec fn sub_spec(self, vector: Vec2d<isize>) -> Range2d<isize> {
        moved_by(self, -vector.x, -vector.y)
    }
}

/// An `isize` coordinate moved by `d`, wrapping around at the bounds of `isize`.
pub open spec fn wrap_coord(v: int, d: int) -> isize {
    let s = v + d;
    let m = isize::MAX - isize::MIN + 1;
    if s > isize::MAX {
        (s - m) as isize
    } else if s < isize::MIN {
        (s + m) as isize
    } else {
        s as isize
    }
}

/// An area moved by `(dx, dy)`, coordinates wrapping around at the bounds of `isize`.
pub open spec fn moved_by(r: Range2d<isize>, dx: int, dy: int) -> Range2d<isize> {
    Range2d {
        x: Range { start: wrap_coord(r.x.start as int, dx), end: wrap_coord(r.x.end as int, dx) },
        y: Range { start: wrap_coord(r.y.start as int, dy), end: wrap_coord(r.y.end as int, dy) },
    }
}

/// Moving an area by a vector and then back by the same vector gives the area back,
/// for every vector.
pub proof fn lemma_shift_round_trip(r: Range2d<isize>, v: Vec2d<isize>)
    ensures
        moved_by(moved_by(r, v.x as int, v.y as int), -v.x, -v.y) == r,
{
}

/// Unsigned area from a signed one by `as` conversion of each bound: meaningful only for bounds that are not negative.
impl From<Range2d<isize>> for Range2d<usize> {
    fn from(range: Range2d<isize>) -> (r: Range2d<usize>) {
        Range2d {
            x: Range { start: range.x.start as usize, end: range.x.end as usize },
            y: Range { start: range.y.start as usize, end: range.y.end as usize },
        }
    }
}

impl vstd::std_specs::convert::FromSpecImpl<Range2d<isize>> for Range2d<usize> {
    open spec fn obeys_from_spec() -> bool {
        true
    }

    open spec fn from_spec(range: Range2d<isize>) -> Range2d<usize> {
        Range2d {
            x: Range { start: range.x.start as usize, end: range.x.end as usize },
            y: Range { start: range.y.start as usize, end: range.y.end as usize },
        }
    }
}

} // verus!
