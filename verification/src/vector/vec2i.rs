//! The 2-component integer vector.

use crate::arith::{fits_i32, trunc_div};
use crate::vector::vec3i::Vec3i;
use vstd::prelude::*;

verus! {

/// A vector of two 32-bit signed integers.
#[derive(Copy, Clone, Debug, PartialEq, Eq, Structural, Hash)]
pub struct Vec2i {
    pub x: i32,
    pub y: i32,
}

impl View for Vec2i {
    type V = (int, int);

    /// The point of the integer plane that the vector stands for.
    open spec fn view(&self) -> (int, int) {
        (self.x as int, self.y as int)
    }
}

impl Vec2i {
    /// The vector with the given components.
    pub fn new(x: i32, y: i32) -> (v: Vec2i)
        ensures
            v == (Vec2i { x, y }),
    {
        Vec2i { x, y }
    }

    /// The vector whose components all equal `x`.
    pub fn splat(x: i32) -> (v: Vec2i)
        ensures
            v == (Vec2i { x, y: x }),
    {
        Vec2i::new(x, x)
    }

    /// The additive identity.
    pub fn zero() -> (v: Vec2i)
        ensures
            v == (Vec2i { x: 0, y: 0 }),
    {
        Vec2i::splat(0)
    }

    /// The multiplicative identity of the component-wise product.
    pub fn one() -> (v: Vec2i)
        ensures
            v == (Vec2i { x: 1, y: 1 }),
    {
        Vec2i::splat(1)
    }

    /// The vector whose components are those of the pair, in order.
    pub fn from_tuple(t: (i32, i32)) -> (v: Vec2i)
        ensures
            v == (Vec2i { x: t.0, y: t.1 }),
    {
        Vec2i::new(t.0, t.1)
    }

    /// The components as a pair, in order.
    pub fn to_tuple(self) -> (t: (i32, i32))
        ensures
            t == (self.x, self.y),
    {
        (self.x, self.y)
    }

    /// The components as an array, in order.
    pub fn to_array(self) -> (a: [i32; 2])
        ensures
            a == [self.x, self.y],
    {
        [self.x, self.y]
    }

    /// The vector extended by a third component `z`.
    pub fn extend(&self, z: i32) -> (v: Vec3i)
        ensures
            v == (Vec3i { x: self.x, y: self.y, z }),
    {
        Vec3i::new(self.x, self.y, z)
    }

    /// The vector with its two components exchanged.
    pub fn transpose(self) -> (v: Vec2i)
        ensures
            v == (Vec2i { x: self.y, y: self.x }),
    {
        Vec2i::new(self.y, self.x)
    }

    /// The sum of the squares of the components, as a mathematical integer.
    pub open spec fn square_length_spec(self) -> int {
        self.x * self.x + self.y * self.y
    }

    /// The square of the Euclidean length: the dot product of the vector
    /// with itself.
    pub fn square_length(self) -> (r: i32)
        requires
            fits_i32(self.square_length_spec()),
        ensures
            r == self.square_length_spec(),
    {
        proof {
            lemma_squares_bounded(self.x as int, self.y as int);
        }
        self.x * self.x + self.y * self.y
    }

    /// The quotient that `div_ceil` computes for one component: the sum of
    /// divisor and dividend less one, divided with rounding toward zero.
    pub open spec fn div_ceil_component(dividend: i32, divisor: i32) -> int {
        trunc_div(divisor + dividend - 1, divisor as int)
    }

    /// Whether `div_ceil` can compute one component in `i32`.
    pub open spec fn div_ceil_defined(dividend: i32, divisor: i32) -> bool {
        &&& fits_i32(divisor + dividend)
        &&& fits_i32(divisor + dividend - 1)
        &&& divisor != 0
        &&& !(divisor + dividend - 1 == i32::MIN && divisor == -1)
    }

    /// Component-wise `(rhs + self - 1) / rhs`. Where a component of `self`
    /// is not negative and that of `rhs` is positive, this is their quotient
    /// rounded up; for other signs it is the formula's value and no ceiling.
    pub fn div_ceil(&self, rhs: Vec2i) -> (r: Vec2i)
        requires
            Self::div_ceil_defined(self.x, rhs.x),
            Self::div_ceil_defined(self.y, rhs.y),
        ensures
            r.x == Self::div_ceil_component(self.x, rhs.x),
            r.y == Self::div_ceil_component(self.y, rhs.y),
            self.x >= 0 && rhs.x > 0 ==> (r.x - 1) * rhs.x < self.x <= r.x * rhs.x,
            self.y >= 0 && rhs.y > 0 ==> (r.y - 1) * rhs.y < self.y <= r.y * rhs.y,
    {
        proof {
            if self.x >= 0 && rhs.x > 0 {
                crate::arith::lemma_ceil_div(self.x as int, rhs.x as int);
            }
            if self.y >= 0 && rhs.y > 0 {
                crate::arith::lemma_ceil_div(self.y as int, rhs.y as int);
            }
        }
        (rhs + *self - Vec2i::splat(1)) / rhs
    }
}

/// Squares are not negative, so each is at most their sum.
proof fn lemma_squares_bounded(x: int, y: int)
    ensures
        0 <= x * x <= x * x + y * y,
        0 <= y * y <= x * x + y * y,
{
    assert(x * x >= 0) by (nonlinear_arith);
    assert(y * y >= 0) by (nonlinear_arith);
}

} // verus!
