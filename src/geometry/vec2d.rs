use vstd::prelude::*;

verus! {

/// General purpose two dimensional vector.
#[derive(Clone, Copy, PartialEq, Eq, Hash, Debug)]
pub struct Vec2d<T> {
    pub x: T,
    pub y: T,
}

impl<T: Copy> Vec2d<T> {
    /// New vector from its two components.
    pub fn new(x: T, y: T) -> (r: Vec2d<T>)
        ensures
            r.x == x,
            r.y == y,
    {
        Vec2d { x, y }
    }
}

impl Vec2d<usize> {
    /// Product of the two components (the pixel count of a size).
    pub fn product(self) -> (r: usize)
        requires
            self.x * self.y <= usize::MAX,
        ensures
            r == self.x * self.y,
    {
        self.x * self.y
    }
}

impl Vec2d<isize> {
    /// Product of the two components.
    pub fn product(self) -> (r: isize)
        requires
            isize::MIN <= self.x * self.y <= isize::MAX,
        ensures
            r == self.x * self.y,
    {
        self.x * self.y
    }
}

/// Componentwise sum; components wrap around at the bounds of `isize`.
impl std::ops::Add for Vec2d<isize> {
    type Output = Vec2d<isize>;

    fn add(self, other: Vec2d<isize>) -> (r: Vec2d<isize>) {
        Vec2d { x: self.x.wrapping_add(other.x), y: self.y.wrapping_add(other.y) }
    }
}

impl vstd::std_specs::ops::AddSpecImpl for Vec2d<isize> {
    open spec fn obeys_add_spec() -> bool {
        true
    }

    open spec fn add_req(self, other: Vec2d<isize>) -> bool {
        true
    }

    open spec fn add_spec(self, other: Vec2d<isize>) -> Vec2d<isize> {
        Vec2d { x: self.x.wrapping_add(other.x), y: self.y.wrapping_add(other.y) }
    }
}

/// Componentwise difference; components wrap around at the bounds of `isize`.
impl std::ops::Sub for Vec2d<isize> {
    type Output = Vec2d<isize>;

    fn sub(self, other: Vec2d<isize>) -> (r: Vec2d<isize>) {
        Vec2d { x: self.x.wrapping_sub(other.x), y: self.y.wrapping_sub(other.y) }
    }
}

impl vstd::std_specs::ops::SubSpecImpl for Vec2d<isize> {
    open spec fn obeys_sub_spec() -> bool {
        true
    }

    open spec fn sub_req(self, other: Vec2d<isize>) -> bool {
        true
    }

    open spec fn sub_spec(self, other: Vec2d<isize>) -> Vec2d<isize> {
        Vec2d { x: self.x.wrapping_sub(other.x), y: self.y.wrapping_sub(other.y) }
    }
}

/// Opposite vector; components wrap around at the bounds of `isize`.
impl std::ops::Neg for Vec2d<isize> {
    type Output = Vec2d<isize>;

    fn neg(self) -> (r: Vec2d<isize>) {
        Vec2d { x: (0isize).wrapping_sub(self.x), y: (0isize).wrapping_sub(self.y) }
    }
}

impl vstd::std_specs::ops::NegSpecImpl for Vec2d<isize> {
    open spec fn obeys_neg_spec() -> bool {
        true
    }

    open spec fn neg_req(self) -> bool {
        true
    }

    open spec fn neg_spec(self) -> Vec2d<isize> {
        Vec2d { x: (0isize).wrapping_sub(self.x), y: (0isize).wrapping_sub(self.y) }
    }
}

/// Dot product; wraps around at the bounds of `isize`.
impl std::ops::Mul<Vec2d<isize>> for Vec2d<isize> {
    type Output = isize;

    fn mul(self, rhs: Vec2d<isize>) -> (r: isize) {
        self.x.wrapping_mul(rhs.x).wrapping_add(self.y.wrapping_mul(rhs.y))
    }
}

impl vstd::std_specs::ops::MulSpecImpl<Vec2d<isize>> for Vec2d<isize> {
    open spec fn obeys_mul_spec() -> bool {
        true
    }

    open spec fn mul_req(self, rhs: Vec2d<isize>) -> bool {
        true
    }

    open spec fn mul_spec(self, rhs: Vec2d<isize>) -> isize {
        self.x.wrapping_mul(rhs.x).wrapping_add(self.y.wrapping_mul(rhs.y))
    }
}

/// A scalar added to both components; wraps around at the bounds of `isize`.
impl std::ops::Add<isize> for Vec2d<isize> {
    type Output = Vec2d<isize>;

    fn add(self, rhs: isize) -> (r: Vec2d<isize>) {
        Vec2d { x: self.x.wrapping_add(rhs), y: self.y.wrapping_add(rhs) }
    }
}

impl vstd::std_specs::ops::AddSpecImpl<isize> for Vec2d<isize> {
    open spec fn obeys_add_spec() -> bool {
        true
    }

    open spec fn add_req(self, rhs: isize) -> bool {
        true
    }

    open spec fn add_spec(self, rhs: isize) -> Vec2d<isize> {
        Vec2d { x: self.x.wrapping_add(rhs), y: self.y.wrapping_add(rhs) }
    }
}

/// A scalar subtracted from both components; wraps around at the bounds of `isize`.
impl std::ops::Sub<isize> for Vec2d<isize> {
    type Output = Vec2d<isize>;

    fn sub(self, rhs: isize) -> (r: Vec2d<isize>) {
        Vec2d { x: self.x.wrapping_sub(rhs), y: self.y.wrapping_sub(rhs) }
    }
}

impl vstd::std_specs::ops::SubSpecImpl<isize> for Vec2d<isize> {
    open spec fn obeys_sub_spec() -> bool {
        true
    }

    open spec fn sub_req(self, rhs: isize) -> bool {
        true
    }

    open spec fn sub_spec(self, rhs: isize) -> Vec2d<isize> {
        Vec2d { x: self.x.wrapping_sub(rhs), y: self.y.wrapping_sub(rhs) }
    }
}

/// Both components multiplied by a scalar; wraps around at the bounds of `isize`.
impl std::ops::Mul<isize> for Vec2d<isize> {
    type Output = Vec2d<isize>;

    fn mul(self, rhs: isize) -> (r: Vec2d<isize>) {
        Vec2d { x: self.x.wrapping_mul(rhs), y: self.y.wrapping_mul(rhs) }
    }
}

impl vstd::std_specs::ops::MulSpecImpl<isize> for Vec2d<isize> {
    open spec fn obeys_mul_spec() -> bool {
        true
    }

    open spec fn mul_req(self, rhs: isize) -> bool {
        true
    }

    open spec fn mul_spec(self, rhs: isize) -> Vec2d<isize> {
        Vec2d { x: self.x.wrapping_mul(rhs), y: self.y.wrapping_mul(rhs) }
    }
}

/// `x / d` rounded towards zero, as integer division in Rust.
pub open spec fn div_toward_zero(x: isize, d: isize) -> isize {
    if x >= 0 {
        (x / d) as isize
    } else {
        (-((-x) / (d as int))) as isize
    }
}

/// Both components divided by a scalar, rounding towards zero; the scalar
/// must be nonzero and the division must not overflow.
impl std::ops::Div<isize> for Vec2d<isize> {
    type Output = Vec2d<isize>;

    fn div(self, rhs: isize) -> (r: Vec2d<isize>) {
        Vec2d { x: self.x / rhs, y: self.y / rhs }
    }
}

impl vstd::std_specs::ops::DivSpecImpl<isize> for Vec2d<isize> {
    open spec fn obeys_div_spec() -> bool {
        true
    }

    open spec fn div_req(self, rhs: isize) -> bool {
        rhs != 0 && !(rhs == -1 && (self.x == isize::MIN || self.y == isize::MIN))
    }

    open spec fn div_spec(self, rhs: isize) -> Vec2d<isize> {
        Vec2d { x: div_toward_zero(self.x, rhs), y: div_toward_zero(self.y, rhs) }
    }
}

/// Both components set to `T::default()`.
impl<T: Default> Default for Vec2d<T> {
    fn default() -> (r: Self)
        ensures
            call_ensures(T::default, (), r.x),
            call_ensures(T::default, (), r.y),
    {
        Vec2d { x: T::default(), y: T::default() }
    }
}

} // verus!
