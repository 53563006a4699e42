//! The 3-component integer vector.

use crate::arith::{fits_i32, trunc_div};
use crate::vector::vec2i::Vec2i;
use vstd::prelude::*;

verus! {

/// A vector of three 32-bit signed integers.
#[derive(Copy, Clone, Debug, PartialEq, Eq, Structural, Hash)]
pub struct Vec3i {
    pub x: i32,
    pub y: i32,
    pub z: i32,
}

impl View for Vec3i {
    type V = (int, int, int);

    /// The point of integer space that the vector stands for.
    open spec fn view(&self) -> (int, int, int) {
        (self.x as int, self.y as int, self.z as int)
    }
}

impl Vec3i {
    /// The vector with the given components.
    pub fn new(x: i32, y: i32, z: i32) -> (v: Vec3i)
        ensures
            v == (Vec3i { x, y, z }),
    {
        Vec3i { x, y, z }
    }

    /// The vector whose components all equal `x`.
    pub fn splat(x: i32) -> (v: Vec3i)
        ensures
            v == (Vec3i { x, y: x, z: x }),
    {
        Vec3i::new(x, x, x)
    }

    /// The additive identity.
    pub fn zero() -> (v: Vec3i)
        ensures
            v == (Vec3i { x: 0, y: 0, z: 0 }),
    {
        Vec3i::splat(0)
    }

    /// The multiplicative identity of the component-wise product.
    pub fn one() -> (v: Vec3i)
        ensures
            v == (Vec3i { x: 1, y: 1, z: 1 }),
    {
        Vec3i::splat(1)
    }

    /// The vector whose components are those of the triple, in order.
    pub fn from_tuple(t: (i32, i32, i32)) -> (v: Vec3i)
        ensures
            v == (Vec3i { x: t.0, y: t.1, z: t.2 }),
    {
        Vec3i::new(t.0, t.1, t.2)
    }

    /// The components as a triple, in order.
    pub fn to_tuple(self) -> (t: (i32, i32, i32))
        ensures
            t == (self.x, self.y, self.z),
    {
        (self.x, self.y, self.z)
    }

    /// The components as an array, in order.
    pub fn to_array(self) -> (a: [i32; 3])
        ensures
            a == [self.x, self.y, self.z],
    {
        [self.x, self.y, self.z]
    }

    /// The first two components; `z` is dropped.
    pub fn to_xy(&self) -> (v: Vec2i)
        ensures
            v == (Vec2i { x: self.x, y: self.y }),
    {
        Vec2i::new(self.x, self.y)
    }

    /// The sum of the squares of the components, as a mathematical integer.
    pub open spec fn square_length_spec(self) -> int {
        self.x * self.x + self.y * self.y + self.z * self.z
    }

    /// The square of the Euclidean length: the dot product of the vector
    /// with itself.
    pub fn square_length(self) -> (r: i32)
        requires
            fits_i32(self.square_length_spec()),
        ensures
            r == self.square_length_spec(),
    {
        proof {
            lemma_squares_bounded(self.x as int, self.y as int, self.z as int);
        }
        self.x * self.x + self.y * self.y + self.z * self.z
    }

    /// The quotient that `div_ceil` computes for one component: the sum of
    /// divisor and dividend less one, divided with rounding toward zero.
    pub open spec fn div_ceil_component(dividend: i32, divisor: i32) -> int {
        trunc_div(divisor + dividend - 1, divisor as int)
    }

    /// Whether `div_ceil` can compute one component in `i32`.
    pub open spec fn div_ceil_defined(dividend: i32, divisor: i32) -> bool {
        &&& fits_i32(divisor + dividend)
        &&& fits_i32(divisor + dividend - 1)
        &&& divisor != 0
        &&& !(divisor + dividend - 1 == i32::MIN && divisor == -1)
    }

    /// Component-wise `(rhs + self - 1) / rhs`. Where a component of `self`
    /// is not negative and that of `rhs` is positive, this is their quotient
    /// rounded up; for other signs it is the formula's value and no ceiling.
    pub fn div_ceil(&self, rhs: Vec3i) -> (r: Vec3i)
        requires
            Self::div_ceil_defined(self.x, rhs.x),
            Self::div_ceil_defined(self.y, rhs.y),
            Self::div_ceil_defined(self.z, rhs.z),
        ensures
            r.x == Self::div_ceil_component(self.x, rhs.x),
            r.y == Self::div_ceil_component(self.y, rhs.y),
            r.z == Self::div_ceil_component(self.z, rhs.z),
            self.x >= 0 && rhs.x > 0 ==> (r.x - 1) * rhs.x < self.x <= r.x * rhs.x,
            self.y >= 0 && rhs.y > 0 ==> (r.y - 1) * rhs.y < self.y <= r.y * rhs.y,
            self.z >= 0 && rhs.z > 0 ==> (r.z - 1) * rhs.z < self.z <= r.z * rhs.z,
    {
        proof {
            if self.x >= 0 && rhs.x > 0 {
                crate::arith::lemma_ceil_div(self.x as int, rhs.x as int);
            }
            if self.y >= 0 && rhs.y > 0 {
                crate::arith::lemma_ceil_div(self.y as int, rhs.y as int);
            }
            if self.z >= 0 && rhs.z > 0 {
                crate::arith::lemma_ceil_div(self.z as int, rhs.z as int);
            }
        }
        (rhs + *self - Vec3i::splat(1)) / rhs
    }
}

/// Squares are not negative, so each is at most their sum.
proof fn lemma_squares_bounded(x: int, y: int, z: int)
    ensures
        0 <= x * x <= x * x + y * y + z * z,
        0 <= y * y <= x * x + y * y + z * z,
        0 <= z * z <= x * x + y * y + z * z,
{
    assert(x * x >= 0) by (nonlinear_arith);
    assert(y * y >= 0) by (nonlinear_arith);
    assert(z * z >= 0) by (nonlinear_arith);
}

} // verus!
