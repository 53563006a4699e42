//! Component-wise arithmetic on [`Vec3i`]: the operators between two vectors,
//! between a vector and a scalar on either side, their assigning forms, and
//! negation.
//!
//! A scalar operand stands for the vector whose components all equal it. Each
//! operator is defined where no component leaves `i32`; division and
//! remainder also need divisors other than zero. Division rounds toward zero
//! and the remainder is what it leaves, with the sign of the dividend.

use crate::arith::{
    div_defined, div_toward_zero, fits_i32, rem_toward_zero, trunc_div, trunc_rem,
};
use crate::vector::vec3i::Vec3i;
use std::ops::{
    Add, AddAssign, Div, DivAssign, Mul, MulAssign, Neg, Rem, RemAssign, Sub, SubAssign,
};
use vstd::prelude::*;
use vstd::std_specs::ops::{
    AddSpecImpl, DivSpecImpl, MulSpecImpl, NegSpecImpl, RemSpecImpl, SubSpecImpl,
};

verus! {

/// The component-wise sum of two vectors.
impl Add for Vec3i {
    type Output = Vec3i;

    fn add(self, o: Vec3i) -> (r: Vec3i)
        ensures
            r.x == self.x + o.x,
            r.y == self.y + o.y,
            r.z == self.z + o.z,
    {
        Vec3i::new(self.x + o.x, self.y + o.y, self.z + o.z)
    }
}

impl AddSpecImpl for Vec3i {
    open spec fn obeys_add_spec() -> bool {
        true
    }

    open spec fn add_req(self, o: Vec3i) -> bool {
        &&& fits_i32(self.x + o.x)
        &&& fits_i32(self.y + o.y)
        &&& fits_i32(self.z + o.z)
    }

    open spec fn add_spec(self, o: Vec3i) -> Vec3i {
        Vec3i {
            x: (self.x + o.x) as i32,
            y: (self.y + o.y) as i32,
            z: (self.z + o.z) as i32,
        }
    }
}

/// The scalar added to each component.
impl Add<i32> for Vec3i {
    type Output = Vec3i;

    fn add(self, o: i32) -> (r: Vec3i)
        ensures
            r.x == self.x + o,
            r.y == self.y + o,
            r.z == self.z + o,
    {
        Vec3i::new(self.x + o, self.y + o, self.z + o)
    }
}

impl AddSpecImpl<i32> for Vec3i {
    open spec fn obeys_add_spec() -> bool {
        true
    }

    open spec fn add_req(self, o: i32) -> bool {
        &&& fits_i32(self.x + o)
        &&& fits_i32(self.y + o)
        &&& fits_i32(self.z + o)
    }

    open spec fn add_spec(self, o: i32) -> Vec3i {
        Vec3i {
            x: (self.x + o) as i32,
            y: (self.y + o) as i32,
            z: (self.z + o) as i32,
        }
    }
}

/// The scalar added to each component, with the scalar on the left.
impl Add<Vec3i> for i32 {
    type Output = Vec3i;

    fn add(self, o: Vec3i) -> (r: Vec3i)
        ensures
            r.x == self + o.x,
            r.y == self + o.y,
            r.z == self + o.z,
    {
        Vec3i::new(self + o.x, self + o.y, self + o.z)
    }
}

impl AddSpecImpl<Vec3i> for i32 {
    open spec fn obeys_add_spec() -> bool {
        true
    }

    open spec fn add_req(self, o: Vec3i) -> bool {
        &&& fits_i32(self + o.x)
        &&& fits_i32(self + o.y)
        &&& fits_i32(self + o.z)
    }

    open spec fn add_spec(self, o: Vec3i) -> Vec3i {
        Vec3i {
            x: (self + o.x) as i32,
            y: (self + o.y) as i32,
            z: (self + o.z) as i32,
        }
    }
}

/// The component-wise difference of two vectors.
impl Sub for Vec3i {
    type Output = Vec3i;

    fn sub(self, o: Vec3i) -> (r: Vec3i)
        ensures
            r.x == self.x - o.x,
            r.y == self.y - o.y,
            r.z == self.z - o.z,
    {
        Vec3i::new(self.x - o.x, self.y - o.y, self.z - o.z)
    }
}

impl SubSpecImpl for Vec3i {
    open spec fn obeys_sub_spec() -> bool {
        true
    }

    open spec fn sub_req(self, o: Vec3i) -> bool {
        &&& fits_i32(self.x - o.x)
        &&& fits_i32(self.y - o.y)
        &&& fits_i32(self.z - o.z)
    }

    open spec fn sub_spec(self, o: Vec3i) -> Vec3i {
        Vec3i {
            x: (self.x - o.x) as i32,
            y: (self.y - o.y) as i32,
            z: (self.z - o.z) as i32,
        }
    }
}

/// The scalar taken from each component.
impl Sub<i32> for Vec3i {
    type Output = Vec3i;

    fn sub(self, o: i32) -> (r: Vec3i)
        ensures
            r.x == self.x - o,
            r.y == self.y - o,
            r.z == self.z - o,
    {
        Vec3i::new(self.x - o, self.y - o, self.z - o)
    }
}

impl SubSpecImpl<i32> for Vec3i {
    open spec fn obeys_sub_spec() -> bool {
        true
    }

    open spec fn sub_req(self, o: i32) -> bool {
        &&& fits_i32(self.x - o)
        &&& fits_i32(self.y - o)
        &&& fits_i32(self.z - o)
    }

    open spec fn sub_spec(self, o: i32) -> Vec3i {
        Vec3i {
            x: (self.x - o) as i32,
            y: (self.y - o) as i32,
            z: (self.z - o) as i32,
        }
    }
}

/// Each component taken from the scalar.
impl Sub<Vec3i> for i32 {
    type Output = Vec3i;

    fn sub(self, o: Vec3i) -> (r: Vec3i)
        ensures
            r.x == self - o.x,
            r.y == self - o.y,
            r.z == self - o.z,
    {
        Vec3i::new(self - o.x, self - o.y, self - o.z)
    }
}

impl SubSpecImpl<Vec3i> for i32 {
    open spec fn obeys_sub_spec() -> bool {
        true
    }

    open spec fn sub_req(self, o: Vec3i) -> bool {
        &&& fits_i32(self - o.x)
        &&& fits_i32(self - o.y)
        &&& fits_i32(self - o.z)
    }

    open spec fn sub_spec(self, o: Vec3i) -> Vec3i {
        Vec3i {
            x: (self - o.x) as i32,
            y: (self - o.y) as i32,
            z: (self - o.z) as i32,
        }
    }
}

/// The component-wise product of two vectors.
impl Mul for Vec3i {
    type Output = Vec3i;

    fn mul(self, o: Vec3i) -> (r: Vec3i)
        ensures
            r.x == self.x * o.x,
            r.y == self.y * o.y,
            r.z == self.z * o.z,
    {
        Vec3i::new(self.x * o.x, self.y * o.y, self.z * o.z)
    }
}

impl MulSpecImpl for Vec3i {
    open spec fn obeys_mul_spec() -> bool {
        true
    }

    open spec fn mul_req(self, o: Vec3i) -> bool {
        &&& fits_i32(self.x * o.x)
        &&& fits_i32(self.y * o.y)
        &&& fits_i32(self.z * o.z)
    }

    open spec fn mul_spec(self, o: Vec3i) -> Vec3i {
        Vec3i {
            x: (self.x * o.x) as i32,
            y: (self.y * o.y) as i32,
            z: (self.z * o.z) as i32,
        }
    }
}

/// Each component multiplied by the scalar.
impl Mul<i32> for Vec3i {
    type Output = Vec3i;

    fn mul(self, o: i32) -> (r: Vec3i)
        ensures
            r.x == self.x * o,
            r.y == self.y * o,
            r.z == self.z * o,
    {
        Vec3i::new(self.x * o, self.y * o, self.z * o)
    }
}

impl MulSpecImpl<i32> for Vec3i {
    open spec fn obeys_mul_spec() -> bool {
        true
    }

    open spec fn mul_req(self, o: i32) -> bool {
        &&& fits_i32(self.x * o)
        &&& fits_i32(self.y * o)
        &&& fits_i32(self.z * o)
    }

    open spec fn mul_spec(self, o: i32) -> Vec3i {
        Vec3i {
            x: (self.x * o) as i32,
            y: (self.y * o) as i32,
            z: (self.z * o) as i32,
        }
    }
}

/// Each component multiplied by the scalar, with the scalar on the left.
impl Mul<Vec3i> for i32 {
    type Output = Vec3i;

    fn mul(self, o: Vec3i) -> (r: Vec3i)
        ensures
            r.x == self * o.x,
            r.y == self * o.y,
            r.z == self * o.z,
    {
        Vec3i::new(self * o.x, self * o.y, self * o.z)
    }
}

impl MulSpecImpl<Vec3i> for i32 {
    open spec fn obeys_mul_spec() -> bool {
        true
    }

    open spec fn mul_req(self, o: Vec3i) -> bool {
        &&& fits_i32(self * o.x)
        &&& fits_i32(self * o.y)
        &&& fits_i32(self * o.z)
    }

    open spec fn mul_spec(self, o: Vec3i) -> Vec3i {
        Vec3i {
            x: (self * o.x) as i32,
            y: (self * o.y) as i32,
            z: (self * o.z) as i32,
        }
    }
}

/// The component-wise quotient of two vectors.
impl Div for Vec3i {
    type Output = Vec3i;

    fn div(self, o: Vec3i) -> (r: Vec3i)
        ensures
            r.x == trunc_div(self.x as int, o.x as int),
            r.y == trunc_div(self.y as int, o.y as int),
            r.z == trunc_div(self.z as int, o.z as int),
    {
        Vec3i::new(
            div_toward_zero(self.x, o.x),
            div_toward_zero(self.y, o.y),
            div_toward_zero(self.z, o.z),
        )
    }
}

impl DivSpecImpl for Vec3i {
    open spec fn obeys_div_spec() -> bool {
        true
    }

    open spec fn div_req(self, o: Vec3i) -> bool {
        &&& div_defined(self.x, o.x)
        &&& div_defined(self.y, o.y)
        &&& div_defined(self.z, o.z)
    }

    open spec fn div_spec(self, o: Vec3i) -> Vec3i {
        Vec3i {
            x: trunc_div(self.x as int, o.x as int) as i32,
            y: trunc_div(self.y as int, o.y as int) as i32,
            z: trunc_div(self.z as int, o.z as int) as i32,
        }
    }
}

/// Each component divided by the scalar.
impl Div<i32> for Vec3i {
    type Output = Vec3i;

    fn div(self, o: i32) -> (r: Vec3i)
        ensures
            r.x == trunc_div(self.x as int, o as int),
            r.y == trunc_div(self.y as int, o as int),
            r.z == trunc_div(self.z as int, o as int),
    {
        Vec3i::new(
            div_toward_zero(self.x, o),
            div_toward_zero(self.y, o),
            div_toward_zero(self.z, o),
        )
    }
}

impl DivSpecImpl<i32> for Vec3i {
    open spec fn obeys_div_spec() -> bool {
        true
    }

    open spec fn div_req(self, o: i32) -> bool {
        &&& div_defined(self.x, o)
        &&& div_defined(self.y, o)
        &&& div_defined(self.z, o)
    }

    open spec fn div_spec(self, o: i32) -> Vec3i {
        Vec3i {
            x: trunc_div(self.x as int, o as int) as i32,
            y: trunc_div(self.y as int, o as int) as i32,
            z: trunc_div(self.z as int, o as int) as i32,
        }
    }
}

/// The scalar divided by each component.
impl Div<Vec3i> for i32 {
    type Output = Vec3i;

    fn div(self, o: Vec3i) -> (r: Vec3i)
        ensures
            r.x == trunc_div(self as int, o.x as int),
            r.y == trunc_div(self as int, o.y as int),
            r.z == trunc_div(self as int, o.z as int),
    {
        Vec3i::new(
            div_toward_zero(self, o.x),
            div_toward_zero(self, o.y),
            div_toward_zero(self, o.z),
        )
    }
}

impl DivSpecImpl<Vec3i> for i32 {
    open spec fn obeys_div_spec() -> bool {
        true
    }

    open spec fn div_req(self, o: Vec3i) -> bool {
        &&& div_defined(self, o.x)
        &&& div_defined(self, o.y)
        &&& div_defined(self, o.z)
    }

    open spec fn div_spec(self, o: Vec3i) -> Vec3i {
        Vec3i {
            x: trunc_div(self as int, o.x as int) as i32,
            y: trunc_div(self as int, o.y as int) as i32,
            z: trunc_div(self as int, o.z as int) as i32,
        }
    }
}

/// The component-wise remainder of two vectors.
impl Rem for Vec3i {
    type Output = Vec3i;

    fn rem(self, o: Vec3i) -> (r: Vec3i)
        ensures
            r.x == trunc_rem(self.x as int, o.x as int),
            r.y == trunc_rem(self.y as int, o.y as int),
            r.z == trunc_rem(self.z as int, o.z as int),
    {
        Vec3i::new(
            rem_toward_zero(self.x, o.x),
            rem_toward_zero(self.y, o.y),
            rem_toward_zero(self.z, o.z),
        )
    }
}

impl RemSpecImpl for Vec3i {
    open spec fn obeys_rem_spec() -> bool {
        true
    }

    open spec fn rem_req(self, o: Vec3i) -> bool {
        &&& div_defined(self.x, o.x)
        &&& div_defined(self.y, o.y)
        &&& div_defined(self.z, o.z)
    }

    open spec fn rem_spec(self, o: Vec3i) -> Vec3i {
        Vec3i {
            x: trunc_rem(self.x as int, o.x as int) as i32,
            y: trunc_rem(self.y as int, o.y as int) as i32,
            z: trunc_rem(self.z as int, o.z as int) as i32,
        }
    }
}

/// The remainder of each component by the scalar.
impl Rem<i32> for Vec3i {
    type Output = Vec3i;

    fn rem(self, o: i32) -> (r: Vec3i)
        ensures
            r.x == trunc_rem(self.x as int, o as int),
            r.y == trunc_rem(self.y as int, o as int),
            r.z == trunc_rem(self.z as int, o as int),
    {
        Vec3i::new(
            rem_toward_zero(self.x, o),
            rem_toward_zero(self.y, o),
            rem_toward_zero(self.z, o),
        )
    }
}

impl RemSpecImpl<i32> for Vec3i {
    open spec fn obeys_rem_spec() -> bool {
        true
    }

    open spec fn rem_req(self, o: i32) -> bool {
        &&& div_defined(self.x, o)
        &&& div_defined(self.y, o)
        &&& div_defined(self.z, o)
    }

    open spec fn rem_spec(self, o: i32) -> Vec3i {
        Vec3i {
            x: trunc_rem(self.x as int, o as int) as i32,
            y: trunc_rem(self.y as int, o as int) as i32,
            z: trunc_rem(self.z as int, o as int) as i32,
        }
    }
}

/// The remainder of the scalar by each component.
impl Rem<Vec3i> for i32 {
    type Output = Vec3i;

    fn rem(self, o: Vec3i) -> (r: Vec3i)
        ensures
            r.x == trunc_rem(self as int, o.x as int),
            r.y == trunc_rem(self as int, o.y as int),
            r.z == trunc_rem(self as int, o.z as int),
    {
        Vec3i::new(
            rem_toward_zero(self, o.x),
            rem_toward_zero(self, o.y),
            rem_toward_zero(self, o.z),
        )
    }
}

impl RemSpecImpl<Vec3i> for i32 {
    open spec fn obeys_rem_spec() -> bool {
        true
    }

    open spec fn rem_req(self, o: Vec3i) -> bool {
        &&& div_defined(self, o.x)
        &&& div_defined(self, o.y)
        &&& div_defined(self, o.z)
    }

    open spec fn rem_spec(self, o: Vec3i) -> Vec3i {
        Vec3i {
            x: trunc_rem(self as int, o.x as int) as i32,
            y: trunc_rem(self as int, o.y as int) as i32,
            z: trunc_rem(self as int, o.z as int) as i32,
        }
    }
}

/// Replaces the vector by its component-wise sum with `o`.
impl AddAssign for Vec3i {
    fn add_assign(&mut self, o: Vec3i)
        requires
            fits_i32(old(self).x + o.x),
            fits_i32(old(self).y + o.y),
            fits_i32(old(self).z + o.z),
        ensures
            final(self).x == old(self).x + o.x,
            final(self).y == old(self).y + o.y,
            final(self).z == old(self).z + o.z,
    {
        self.x = self.x + o.x;
        self.y = self.y + o.y;
        self.z = self.z + o.z;
    }
}

/// Replaces the vector by its sum with the scalar `o`.
impl AddAssign<i32> for Vec3i {
    fn add_assign(&mut self, o: i32)
        requires
            fits_i32(old(self).x + o),
            fits_i32(old(self).y + o),
            fits_i32(old(self).z + o),
        ensures
            final(self).x == old(self).x + o,
            final(self).y == old(self).y + o,
            final(self).z == old(self).z + o,
    {
        self.x = self.x + o;
        self.y = self.y + o;
        self.z = self.z + o;
    }
}

/// Replaces the vector by its component-wise difference with `o`.
impl SubAssign for Vec3i {
    fn sub_assign(&mut self, o: Vec3i)
        requires
            fits_i32(old(self).x - o.x),
            fits_i32(old(self).y - o.y),
            fits_i32(old(self).z - o.z),
        ensures
            final(self).x == old(self).x - o.x,
            final(self).y == old(self).y - o.y,
            final(self).z == old(self).z - o.z,
    {
        self.x = self.x - o.x;
        self.y = self.y - o.y;
        self.z = self.z - o.z;
    }
}

/// Replaces the vector by its difference with the scalar `o`.
impl SubAssign<i32> for Vec3i {
    fn sub_assign(&mut self, o: i32)
        requires
            fits_i32(old(self).x - o),
            fits_i32(old(self).y - o),
            fits_i32(old(self).z - o),
        ensures
            final(self).x == old(self).x - o,
            final(self).y == old(self).y - o,
            final(self).z == old(self).z - o,
    {
        self.x = self.x - o;
        self.y = self.y - o;
        self.z = self.z - o;
    }
}

/// Replaces the vector by its component-wise product with `o`.
impl MulAssign for Vec3i {
    fn mul_assign(&mut self, o: Vec3i)
        requires
            fits_i32(old(self).x * o.x),
            fits_i32(old(self).y * o.y),
            fits_i32(old(self).z * o.z),
        ensures
            final(self).x == old(self).x * o.x,
            final(self).y == old(self).y * o.y,
            final(self).z == old(self).z * o.z,
    {
        self.x = self.x * o.x;
        self.y = self.y * o.y;
        self.z = self.z * o.z;
    }
}

/// Replaces the vector by its product with the scalar `o`.
impl MulAssign<i32> for Vec3i {
    fn mul_assign(&mut self, o: i32)
        requires
            fits_i32(old(self).x * o),
            fits_i32(old(self).y * o),
            fits_i32(old(self).z * o),
        ensures
            final(self).x == old(self).x * o,
            final(self).y == old(self).y * o,
            final(self).z == old(self).z * o,
    {
        self.x = self.x * o;
        self.y = self.y * o;
        self.z = self.z * o;
    }
}

/// Replaces the vector by its component-wise quotient with `o`.
impl DivAssign for Vec3i {
    fn div_assign(&mut self, o: Vec3i)
        requires
            div_defined(old(self).x, o.x),
            div_defined(old(self).y, o.y),
            div_defined(old(self).z, o.z),
        ensures
            final(self).x == trunc_div(old(self).x as int, o.x as int),
            final(self).y == trunc_div(old(self).y as int, o.y as int),
            final(self).z == trunc_div(old(self).z as int, o.z as int),
    {
        self.x = div_toward_zero(self.x, o.x);
        self.y = div_toward_zero(self.y, o.y);
        self.z = div_toward_zero(self.z, o.z);
    }
}

/// Replaces the vector by its quotient with the scalar `o`.
impl DivAssign<i32> for Vec3i {
    fn div_assign(&mut self, o: i32)
        requires
            div_defined(old(self).x, o),
            div_defined(old(self).y, o),
            div_defined(old(self).z, o),
        ensures
            final(self).x == trunc_div(old(self).x as int, o as int),
            final(self).y == trunc_div(old(self).y as int, o as int),
            final(self).z == trunc_div(old(self).z as int, o as int),
    {
        self.x = div_toward_zero(self.x, o);
        self.y = div_toward_zero(self.y, o);
        self.z = div_toward_zero(self.z, o);
    }
}

/// Replaces the vector by its component-wise remainder with `o`.
impl RemAssign for Vec3i {
    fn rem_assign(&mut self, o: Vec3i)
        requires
            div_defined(old(self).x, o.x),
            div_defined(old(self).y, o.y),
            div_defined(old(self).z, o.z),
        ensures
            final(self).x == trunc_rem(old(self).x as int, o.x as int),
            final(self).y == trunc_rem(old(self).y as int, o.y as int),
            final(self).z == trunc_rem(old(self).z as int, o.z as int),
    {
        self.x = rem_toward_zero(self.x, o.x);
        self.y = rem_toward_zero(self.y, o.y);
        self.z = rem_toward_zero(self.z, o.z);
    }
}

/// Replaces the vector by its remainder with the scalar `o`.
impl RemAssign<i32> for Vec3i {
    fn rem_assign(&mut self, o: i32)
        requires
            div_defined(old(self).x, o),
            div_defined(old(self).y, o),
            div_defined(old(self).z, o),
        ensures
            final(self).x == trunc_rem(old(self).x as int, o as int),
            final(self).y == trunc_rem(old(self).y as int, o as int),
            final(self).z == trunc_rem(old(self).z as int, o as int),
    {
        self.x = rem_toward_zero(self.x, o);
        self.y = rem_toward_zero(self.y, o);
        self.z = rem_toward_zero(self.z, o);
    }
}

/// The vector with every component negated.
impl Neg for Vec3i {
    type Output = Vec3i;

    fn neg(self) -> (r: Vec3i)
        ensures
            r.x == -self.x,
            r.y == -self.y,
            r.z == -self.z,
    {
        Vec3i::new(-self.x, -self.y, -self.z)
    }
}

impl NegSpecImpl for Vec3i {
    open spec fn obeys_neg_spec() -> bool {
        true
    }

    open spec fn neg_req(self) -> bool {
        &&& self.x != i32::MIN
        &&& self.y != i32::MIN
        &&& self.z != i32::MIN
    }

    open spec fn neg_spec(self) -> Vec3i {
        Vec3i { x: (-self.x) as i32, y: (-self.y) as i32, z: (-self.z) as i32 }
    }
}

} // verus!
