//! The half-open box of grid points.

use crate::arith::{fits_i32, max_int, min_int, trunc_div};
use crate::vector::vec2i::Vec2i;
use std::ops::Neg;
use vstd::prelude::*;
use vstd::std_specs::ops::{AddSpec, SubSpec};

verus! {

/// A half-open 2D range: a point is inside where each of its coordinates is
/// at least that of `lower` and less than that of `upper`.
#[derive(Debug, Copy, Clone)]
pub struct Aabb2i {
    /// The inclusive lower bound of the range.
    pub lower: Vec2i,
    /// The exclusive upper bound of the range.
    pub upper: Vec2i,
}

impl View for Aabb2i {
    type V = Set<(int, int)>;

    /// The grid points inside the box.
    open spec fn view(&self) -> Set<(int, int)> {
        Set::new(
            |p: (int, int)|
                self.lower.x <= p.0 < self.upper.x && self.lower.y <= p.1 < self.upper.y,
        )
    }
}

/// Constructors
impl Aabb2i {
    /// The box with the given corners. The corners are taken as they are: a
    /// lower corner that does not lie below the upper one gives an empty box.
    pub fn new(lower: Vec2i, upper: Vec2i) -> (b: Aabb2i)
        ensures
            b.lower == lower,
            b.upper == upper,
    {
        Aabb2i { lower, upper }
    }

    /// The empty box that every point extends: its lower corner is the
    /// largest vector and its upper corner the smallest.
    pub open spec fn spec_empty() -> Aabb2i {
        Aabb2i {
            lower: Vec2i { x: i32::MAX, y: i32::MAX },
            upper: Vec2i { x: i32::MIN, y: i32::MIN },
        }
    }

    /// The empty box that every point extends.
    #[verifier::when_used_as_spec(spec_empty)]
    pub fn empty() -> (b: Aabb2i)
        ensures
            b == Aabb2i::spec_empty(),
            b.spec_is_empty(),
            b@ == Set::<(int, int)>::empty(),
    {
        let b = Aabb2i::new(Vec2i::splat(i32::MAX), Vec2i::splat(i32::MIN));
        assert(b@ =~= Set::<(int, int)>::empty());
        b
    }

    /// The box from `center - extents` to `center + extents`.
    pub fn around_point(center: Vec2i, extents: Vec2i) -> (b: Aabb2i)
        requires
            center.sub_req(extents),
            center.add_req(extents),
        ensures
            b.lower == center.sub_spec(extents),
            b.upper == center.add_spec(extents),
    {
        Aabb2i::new(center - extents, center + extents)
    }
}

/// Measures
impl Aabb2i {
    /// Whether no point is inside: on some axis the lower bound is not
    /// below the upper one.
    pub open spec fn spec_is_empty(&self) -> bool {
        self.lower.x >= self.upper.x || self.lower.y >= self.upper.y
    }

    /// Whether no point is inside.
    #[verifier::when_used_as_spec(spec_is_empty)]
    pub fn is_empty(&self) -> (r: bool)
        ensures
            r == self.spec_is_empty(),
            r <==> self@ == Set::<(int, int)>::empty(),
    {
        proof {
            lemma_empty_iff_no_point(*self);
        }
        self.lower.x >= self.upper.x || self.lower.y >= self.upper.y
    }

    /// The midpoint of the corners, each coordinate rounded toward zero.
    pub fn center(&self) -> (c: Vec2i)
        requires
            self.lower.add_req(self.upper),
        ensures
            c.x == trunc_div(self.lower.x + self.upper.x, 2),
            c.y == trunc_div(self.lower.y + self.upper.y, 2),
    {
        (self.lower + self.upper) / 2
    }

    /// The width and height of the box as mathematical integers: the
    /// difference of the corners, and zero for an empty box.
    pub open spec fn spec_size(&self) -> (int, int) {
        if self.spec_is_empty() {
            (0, 0)
        } else {
            (self.upper.x - self.lower.x, self.upper.y - self.lower.y)
        }
    }

    /// The width and height of the box; zero for an empty box.
    pub fn size(&self) -> (s: Vec2i)
        requires
            fits_i32(self.spec_size().0),
            fits_i32(self.spec_size().1),
        ensures
            s@ == self.spec_size(),
            s.x >= 0,
            s.y >= 0,
    {
        if self.is_empty() {
            Vec2i::zero()
        } else {
            self.upper - self.lower
        }
    }

    /// Half the width and height, each rounded toward zero.
    pub fn extents(&self) -> (e: Vec2i)
        requires
            fits_i32(self.spec_size().0),
            fits_i32(self.spec_size().1),
        ensures
            e.x == trunc_div(self.spec_size().0, 2),
            e.y == trunc_div(self.spec_size().1, 2),
    {
        self.size() / 2
    }
}

/// Queries
impl Aabb2i {
    /// Whether `point` is inside: at or above `lower` and strictly below
    /// `upper` on both axes.
    pub open spec fn spec_contains_point(&self, point: Vec2i) -> bool {
        &&& self.lower.x <= point.x < self.upper.x
        &&& self.lower.y <= point.y < self.upper.y
    }

    /// Whether `point` is inside the box. The lower edges are inside, the
    /// upper edges are not.
    #[verifier::when_used_as_spec(spec_contains_point)]
    pub fn contains_point(&self, point: Vec2i) -> (r: bool)
        ensures
            r == self.spec_contains_point(point),
            r == self@.contains(point@),
    {
        self.lower.x <= point.x && point.x < self.upper.x && self.lower.y <= point.y && point.y
            < self.upper.y
    }
}

/// Modifications
impl Aabb2i {
    /// Whether `grow` can move both corners by `amount` without leaving `i32`.
    pub open spec fn grow_defined(&self, amount: Vec2i) -> bool {
        &&& fits_i32(self.lower.x - amount.x)
        &&& fits_i32(self.lower.y - amount.y)
        &&& fits_i32(self.upper.x + amount.x)
        &&& fits_i32(self.upper.y + amount.y)
    }

    /// The box with `lower` moved down and `upper` moved up by `amount`.
    pub open spec fn spec_grow(&self, amount: Vec2i) -> Aabb2i {
        Aabb2i {
            lower: Vec2i {
                x: (self.lower.x - amount.x) as i32,
                y: (self.lower.y - amount.y) as i32,
            },
            upper: Vec2i {
                x: (self.upper.x + amount.x) as i32,
                y: (self.upper.y + amount.y) as i32,
            },
        }
    }

    /// The box widened by `amount` on every side. A negative amount narrows
    /// it.
    #[verifier::when_used_as_spec(spec_grow)]
    pub fn grow(&self, amount: Vec2i) -> (b: Aabb2i)
        requires
            self.grow_defined(amount),
        ensures
            b == self.spec_grow(amount),
            b.lower.x == self.lower.x - amount.x,
            b.lower.y == self.lower.y - amount.y,
            b.upper.x == self.upper.x + amount.x,
            b.upper.y == self.upper.y + amount.y,
    {
        Aabb2i { lower: self.lower - amount, upper: self.upper + amount }
    }

    /// Whether `shrink` can negate `amount` and move both corners by it
    /// without leaving `i32`.
    pub open spec fn shrink_defined(&self, amount: Vec2i) -> bool {
        &&& amount.x != i32::MIN
        &&& amount.y != i32::MIN
        &&& fits_i32(self.lower.x + amount.x)
        &&& fits_i32(self.lower.y + amount.y)
        &&& fits_i32(self.upper.x - amount.x)
        &&& fits_i32(self.upper.y - amount.y)
    }

    /// The box with `lower` moved up and `upper` moved down by `amount`.
    pub open spec fn spec_shrink(&self, amount: Vec2i) -> Aabb2i {
        Aabb2i {
            lower: Vec2i {
                x: (self.lower.x + amount.x) as i32,
                y: (self.lower.y + amount.y) as i32,
            },
            upper: Vec2i {
                x: (self.upper.x - amount.x) as i32,
                y: (self.upper.y - amount.y) as i32,
            },
        }
    }

    /// The box narrowed by `amount` on every side: `grow` by the negated
    /// amount.
    #[verifier::when_used_as_spec(spec_shrink)]
    pub fn shrink(&self, amount: Vec2i) -> (b: Aabb2i)
        requires
            self.shrink_defined(amount),
        ensures
            b == self.spec_shrink(amount),
            b.lower.x == self.lower.x + amount.x,
            b.lower.y == self.lower.y + amount.y,
            b.upper.x == self.upper.x - amount.x,
            b.upper.y == self.upper.y - amount.y,
    {
        self.grow(amount.neg())
    }

    /// The box whose lower corner is the component-wise minimum of `lower`
    /// and `point`, and whose upper corner is the component-wise maximum of
    /// `upper` and `point`.
    pub open spec fn spec_include_point(&self, point: Vec2i) -> Aabb2i {
        Aabb2i {
            lower: Vec2i {
                x: min_int(self.lower.x as int, point.x as int) as i32,
                y: min_int(self.lower.y as int, point.y as int) as i32,
            },
            upper: Vec2i {
                x: max_int(self.upper.x as int, point.x as int) as i32,
                y: max_int(self.upper.y as int, point.y as int) as i32,
            },
        }
    }

    /// The box with both corners stretched to `point`: afterwards `lower`
    /// is at or below the point and `upper` at or above it. Since `upper` is
    /// exclusive, a point that moves `upper` lies on the new upper edge and is
    /// itself not inside.
    #[verifier::when_used_as_spec(spec_include_point)]
    pub fn include_point(&self, point: Vec2i) -> (b: Aabb2i)
        ensures
            b == self.spec_include_point(point),
            b.lower.x == min_int(self.lower.x as int, point.x as int),
            b.lower.y == min_int(self.lower.y as int, point.y as int),
            b.upper.x == max_int(self.upper.x as int, point.x as int),
            b.upper.y == max_int(self.upper.y as int, point.y as int),
    {
        Aabb2i {
            lower: Vec2i::new(self.lower.x.min(point.x), self.lower.y.min(point.y)),
            upper: Vec2i::new(self.upper.x.max(point.x), self.upper.y.max(point.y)),
        }
    }
}

/// A box is empty by its corners exactly when no grid point is inside it.
pub proof fn lemma_empty_iff_no_point(b: Aabb2i)
    ensures
        b.spec_is_empty() <==> b@ == Set::<(int, int)>::empty(),
{
    if b.spec_is_empty() {
        assert(b@ =~= Set::<(int, int)>::empty());
    } else {
        assert(b@.contains((b.lower.x as int, b.lower.y as int)));
    }
}

} // verus!
