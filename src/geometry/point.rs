use super::vec2d::div_toward_zero;
use vstd::prelude::*;

verus! {

/// A point of the plane given by its two coordinates.
#[derive(Clone, Copy, PartialEq, Eq, Hash, Debug)]
pub struct Point<T> {
    pub x: T,
    pub y: T,
}

impl<T: Copy> Point<T> {
    /// New point from its two coordinates.
    pub fn new(x: T, y: T) -> (r: Point<T>)
        ensures
            r.x == x,
            r.y == y,
    {
        Point { x, y }
    }
}

impl Point<usize> {
    /// Product of the two coordinates.
    pub fn product(self) -> (r: usize)
        requires
            self.x * self.y <= usize::MAX,
        ensures
            r == self.x * self.y,
    {
        self.x * self.y
    }
}

impl Point<isize> {
    /// Product of the two coordinates.
    pub fn product(self) -> (r: isize)
        requires
            isize::MIN <= self.x * self.y <= isize::MAX,
        ensures
            r == self.x * self.y,
    {
        self.x * self.y
    }
}

/// Componentwise sum; components wrap around at the bounds of `isize`.
impl std::ops::Add for Point<isize> {
    type Output = Point<isize>;

    fn add(self, other: Point<isize>) -> (r: Point<isize>) {
        Point { x: self.x.wrapping_add(other.x), y: self.y.wrapping_add(other.y) }
    }
}

impl vstd::std_specs::ops::AddSpecImpl for Point<isize> {
    open spec fn obeys_add_spec() -> bool {
        true
    }

    open spec fn add_req(self, other: Point<isize>) -> bool {
        true
    }

    open spec fn add_spec(self, other: Point<isize>) -> Point<isize> {
        Point { x: self.x.wrapping_add(other.x), y: self.y.wrapping_add(other.y) }
    }
}

/// Componentwise difference; components wrap around at the bounds of `isize`.
impl std::ops::Sub for Point<isize> {
    type Output = Point<isize>;

    fn sub(self, other: Point<isize>) -> (r: Point<isize>) {
        Point { x: self.x.wrapping_sub(other.x), y: self.y.wrapping_sub(other.y) }
    }
}

impl vstd::std_specs::ops::SubSpecImpl for Point<isize> {
    open spec fn obeys_sub_spec() -> bool {
        true
    }

    open spec fn sub_req(self, other: Point<isize>) -> bool {
        true
    }

    open spec fn sub_spec(self, other: Point<isize>) -> Point<isize> {
        Point { x: self.x.wrapping_sub(other.x), y: self.y.wrapping_sub(other.y) }
    }
}

/// Opposite vector; components wrap around at the bounds of `isize`.
impl std::ops::Neg for Point<isize> {
    type Output = Point<isize>;

    fn neg(self) -> (r: Point<isize>) {
        Point { x: (0isize).wrapping_sub(self.x), y: (0isize).wrapping_sub(self.y) }
    }
}

impl vstd::std_specs::ops::NegSpecImpl for Point<isize> {
    open spec fn obeys_neg_spec() -> bool {
        true
    }

    open spec fn neg_req(self) -> bool {
        true
    }

    open spec fn neg_spec(self) -> Point<isize> {
        Point { x: (0isize).wrapping_sub(self.x), y: (0isize).wrapping_sub(self.y) }
    }
}

/// Dot product; wraps around at the bounds of `isize`.
impl std::ops::Mul<Point<isize>> for Point<isize> {
    type Output = isize;

    fn mul(self, rhs: Point<isize>) -> (r: isize) {
        self.x.wrapping_mul(rhs.x).wrapping_add(self.y.wrapping_mul(rhs.y))
    }
}

impl vstd::std_specs::ops::MulSpecImpl<Point<isize>> for Point<isize> {
    open spec fn obeys_mul_spec() -> bool {
        true
    }

    open spec fn mul_req(self, rhs: Point<isize>) -> bool {
        true
    }

    open spec fn mul_spec(self, rhs: Point<isize>) -> isize {
        self.x.wrapping_mul(rhs.x).wrapping_add(self.y.wrapping_mul(rhs.y))
    }
}

/// A scalar added to both components; wraps around at the bounds of `isize`.
impl std::ops::Add<isize> for Point<isize> {
    type Output = Point<isize>;

    fn add(self, rhs: isize) -> (r: Point<isize>) {
        Point { x: self.x.wrapping_add(rhs), y: self.y.wrapping_add(rhs) }
    }
}

impl vstd::std_specs::ops::AddSpecImpl<isize> for Point<isize> {
    open spec fn obeys_add_spec() -> bool {
        true
    }

    open spec fn add_req(self, rhs: isize) -> bool {
        true
    }

    open spec fn add_spec(self, rhs: isize) -> Point<isize> {
        Point { x: self.x.wrapping_add(rhs), y: self.y.wrapping_add(rhs) }
    }
}

/// A scalar subtracted from both components; wraps around at the bounds of `isize`.
impl std::ops::Sub<isize> for Point<isize> {
    type Output = Point<isize>;

    fn sub(self, rhs: isize) -> (r: Point<isize>) {
        Point { x: self.x.wrapping_sub(rhs), y: self.y.wrapping_sub(rhs) }
    }
}

impl vstd::std_specs::ops::SubSpecImpl<isize> for Point<isize> {
    open spec fn obeys_sub_spec() -> bool {
        true
    }

    open spec fn sub_req(self, rhs: isize) -> bool {
        true
    }

    open spec fn sub_spec(self, rhs: isize) -> Point<isize> {
        Point { x: self.x.wrapping_sub(rhs), y: self.y.wrapping_sub(rhs) }
    }
}

/// Both components multiplied by a scalar; wraps around at the bounds of `isize`.
impl std::ops::Mul<isize> for Point<isize> {
    type Output = Point<isize>;

    fn mul(self, rhs: isize) -> (r: Point<isize>) {
        Point { x: self.x.wrapping_mul(rhs), y: self.y.wrapping_mul(rhs) }
    }
}

impl vstd::std_specs::ops::MulSpecImpl<isize> for Point<isize> {
    open spec fn obeys_mul_spec() -> bool {
        true
    }

    open spec fn mul_req(self, rhs: isize) -> bool {
        true
    }

    open spec fn mul_spec(self, rhs: isize) -> Point<isize> {
        Point { x: self.x.wrapping_mul(rhs), y: self.y.wrapping_mul(rhs) }
    }
}

/// Both components divided by a scalar, rounding towards zero; the scalar
/// must be nonzero and the division must not overflow.
impl std::ops::Div<isize> for Point<isize> {
    type Output = Point<isize>;

    fn div(self, rhs: isize) -> (r: Point<isize>) {
        Point { x: self.x / rhs, y: self.y / rhs }
    }
}

impl vstd::std_specs::ops::DivSpecImpl<isize> for Point<isize> {
    open spec fn obeys_div_spec() -> bool {
        true
    }

    open spec fn div_req(self, rhs: isize) -> bool {
        rhs != 0 && !(rhs == -1 && (self.x == isize::MIN || self.y == isize::MIN))
    }

    open spec fn div_spec(self, rhs: isize) -> Point<isize> {
        Point { x: div_toward_zero(self.x, rhs), y: div_toward_zero(self.y, rhs) }
    }
}

/// Both components set to `T::default()`.
impl<T: Default> Default for Point<T> {
    fn default() -> (r: Self)
        ensures
            call_ensures(T::default, (), r.x),
            call_ensures(T::default, (), r.y),
    {
        Point { x: T::default(), y: T::default() }
    }
}

} // verus!
