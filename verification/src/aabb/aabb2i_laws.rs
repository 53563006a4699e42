//! Laws of the half-open box [`Aabb2i`]: what its edges let in, and how
//! stretching, growing and shrinking compose.

use crate::aabb::aabb2i::Aabb2i;
use crate::vector::vec2i::Vec2i;
use vstd::prelude::*;

verus! {

/// The upper edge is outside: a point with a coordinate equal to that of
/// `upper` is not in the box, whatever its other coordinate.
pub proof fn lemma_upper_edge_excluded(b: Aabb2i, p: Vec2i)
    requires
        p.x == b.upper.x || p.y == b.upper.y,
    ensures
        !b.contains_point(p),
        !b.contains_point(b.upper),
{
}

/// One step inside the upper edge is inside: in a box that is not empty,
/// the point one less than `upper` on both axes is in the box.
pub proof fn lemma_below_upper_included(b: Aabb2i)
    requires
        !b.is_empty(),
    ensures
        b.upper.x > i32::MIN,
        b.upper.y > i32::MIN,
        b.contains_point(Vec2i { x: (b.upper.x - 1) as i32, y: (b.upper.y - 1) as i32 }),
{
}

/// The lower edge is inside: a box that is not empty holds its lower
/// corner.
pub proof fn lemma_lower_corner_included(b: Aabb2i)
    requires
        !b.is_empty(),
    ensures
        b.contains_point(b.lower),
{
}

/// A box that holds a point is not empty, and the empty box holds none.
pub proof fn lemma_contains_implies_not_empty(b: Aabb2i, p: Vec2i)
    requires
        b.contains_point(p),
    ensures
        !b.is_empty(),
        !Aabb2i::empty().contains_point(p),
{
}

/// Stretching the empty box to a point puts both corners on the point: the
/// empty box is where a fold over points starts.
pub proof fn lemma_include_point_from_empty(p: Vec2i)
    ensures
        Aabb2i::empty().include_point(p) == (Aabb2i { lower: p, upper: p }),
{
}

/// After stretching to a point, the point lies between the corners, both
/// taken inclusively.
pub proof fn lemma_include_point_bounds(b: Aabb2i, p: Vec2i)
    ensures
        b.include_point(p).lower.x <= p.x <= b.include_point(p).upper.x,
        b.include_point(p).lower.y <= p.y <= b.include_point(p).upper.y,
{
}

/// Stretching never loses a point: what was inside stays inside.
pub proof fn lemma_include_point_monotone(b: Aabb2i, p: Vec2i, q: Vec2i)
    requires
        b.contains_point(q),
    ensures
        b.include_point(p).contains_point(q),
        b@.subset_of(b.include_point(p)@),
{
}

/// A point that was inside does not change the box.
pub proof fn lemma_include_contained_point(b: Aabb2i, p: Vec2i)
    requires
        b.contains_point(p),
    ensures
        b.include_point(p) == b,
{
}

/// Stretching to the same point twice is stretching once.
pub proof fn lemma_include_point_idempotent(b: Aabb2i, p: Vec2i)
    ensures
        b.include_point(p).include_point(p) == b.include_point(p),
{
}

/// The order in which points are included does not matter.
pub proof fn lemma_include_point_commutative(b: Aabb2i, p: Vec2i, q: Vec2i)
    ensures
        b.include_point(p).include_point(q) == b.include_point(q).include_point(p),
{
}

/// Growing by the zero vector changes nothing.
pub proof fn lemma_grow_zero(b: Aabb2i)
    ensures
        b.grow_defined(Vec2i { x: 0, y: 0 }),
        b.grow(Vec2i { x: 0, y: 0 }) == b,
{
}

/// Shrinking undoes growing by the same amount.
pub proof fn lemma_grow_then_shrink(b: Aabb2i, amount: Vec2i)
    requires
        b.grow_defined(amount),
        amount.x != i32::MIN,
        amount.y != i32::MIN,
    ensures
        b.grow(amount).shrink_defined(amount),
        b.grow(amount).shrink(amount) == b,
{
}

/// Shrinking is growing by the negated amount.
pub proof fn lemma_shrink_is_grow_negated(b: Aabb2i, amount: Vec2i)
    requires
        b.shrink_defined(amount),
    ensures
        b.grow_defined(Vec2i { x: (-amount.x) as i32, y: (-amount.y) as i32 }),
        b.shrink(amount) == b.grow(Vec2i { x: (-amount.x) as i32, y: (-amount.y) as i32 }),
{
}

/// Growing by an amount that is not negative keeps every point.
pub proof fn lemma_grow_keeps_points(b: Aabb2i, amount: Vec2i, p: Vec2i)
    requires
        b.grow_defined(amount),
        amount.x >= 0,
        amount.y >= 0,
        b.contains_point(p),
    ensures
        b.grow(amount).contains_point(p),
{
}

/// A box that is not empty has a positive width and height, and an empty
/// box has size zero.
pub proof fn lemma_size_sign(b: Aabb2i)
    ensures
        b.is_empty() ==> b.spec_size() == (0int, 0int),
        !b.is_empty() ==> b.spec_size().0 > 0 && b.spec_size().1 > 0,
{
}

} // verus!
