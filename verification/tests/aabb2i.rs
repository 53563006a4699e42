use linear_math::Aabb2i;
use linear_math::Vec2i;

fn corners(b: Aabb2i) -> (Vec2i, Vec2i) {
    (b.lower, b.upper)
}

#[test]
fn aabb2i_new_keeps_corners() {
    let b = Aabb2i::new(Vec2i::new(1, 2), Vec2i::new(5, 8));
    assert_eq!(b.lower, Vec2i::new(1, 2));
    assert_eq!(b.upper, Vec2i::new(5, 8));
}

#[test]
fn aabb2i_empty_sentinel() {
    let e = Aabb2i::empty();
    assert_eq!(e.lower, Vec2i::splat(i32::MAX));
    assert_eq!(e.upper, Vec2i::splat(i32::MIN));
    assert!(e.is_empty());
    assert_eq!(e.size(), Vec2i::zero());
    assert_eq!(e.extents(), Vec2i::zero());
    assert!(!e.contains_point(Vec2i::zero()));
    assert!(!e.contains_point(Vec2i::splat(i32::MAX)));
    assert!(!e.contains_point(Vec2i::splat(i32::MIN)));
}

#[test]
fn aabb2i_around_point() {
    let b = Aabb2i::around_point(Vec2i::new(10, -10), Vec2i::new(3, 4));
    assert_eq!(corners(b), (Vec2i::new(7, -14), Vec2i::new(13, -6)));
    assert_eq!(b.center(), Vec2i::new(10, -10));
    assert_eq!(b.size(), Vec2i::new(6, 8));
    assert_eq!(b.extents(), Vec2i::new(3, 4));
}

#[test]
fn aabb2i_is_empty_by_either_axis() {
    assert!(!Aabb2i::new(Vec2i::new(0, 0), Vec2i::new(1, 1)).is_empty());
    assert!(Aabb2i::new(Vec2i::new(0, 0), Vec2i::new(0, 1)).is_empty());
    assert!(Aabb2i::new(Vec2i::new(0, 0), Vec2i::new(1, 0)).is_empty());
    assert!(Aabb2i::new(Vec2i::new(2, 0), Vec2i::new(1, 5)).is_empty());
    assert!(Aabb2i::new(Vec2i::new(0, 9), Vec2i::new(4, 5)).is_empty());
    assert!(Aabb2i::new(Vec2i::new(3, 3), Vec2i::new(3, 3)).is_empty());
}

#[test]
fn aabb2i_center_rounds_toward_zero() {
    assert_eq!(Aabb2i::new(Vec2i::new(0, 0), Vec2i::new(5, 4)).center(), Vec2i::new(2, 2));
    assert_eq!(Aabb2i::new(Vec2i::new(-5, -4), Vec2i::new(0, 0)).center(), Vec2i::new(-2, -2));
    assert_eq!(Aabb2i::new(Vec2i::new(-3, 1), Vec2i::new(2, 2)).center(), Vec2i::new(0, 1));
}

#[test]
fn aabb2i_size_and_extents() {
    let b = Aabb2i::new(Vec2i::new(-2, 3), Vec2i::new(5, 6));
    assert_eq!(b.size(), Vec2i::new(7, 3));
    assert_eq!(b.extents(), Vec2i::new(3, 1));
    let inverted = Aabb2i::new(Vec2i::new(5, 0), Vec2i::new(-5, 10));
    assert_eq!(inverted.size(), Vec2i::zero());
    assert_eq!(inverted.extents(), Vec2i::zero());
}

#[test]
fn aabb2i_contains_lower_edge_not_upper_edge() {
    let b = Aabb2i::new(Vec2i::new(1, 2), Vec2i::new(5, 8));
    assert!(b.contains_point(Vec2i::new(1, 2)));
    assert!(b.contains_point(Vec2i::new(4, 7)));
    assert!(b.contains_point(Vec2i::new(1, 7)));
    assert!(b.contains_point(Vec2i::new(4, 2)));
    assert!(!b.contains_point(Vec2i::new(5, 8)));
    assert!(!b.contains_point(Vec2i::new(5, 2)));
    assert!(!b.contains_point(Vec2i::new(1, 8)));
    assert!(!b.contains_point(Vec2i::new(0, 2)));
    assert!(!b.contains_point(Vec2i::new(1, 1)));
}

#[test]
fn aabb2i_point_on_upper_is_out_one_less_is_in() {
    let b = Aabb2i::new(Vec2i::new(-3, -3), Vec2i::new(4, 9));
    assert!(!b.contains_point(b.upper));
    assert!(b.contains_point(b.upper - 1));
    assert!(b.contains_point(b.lower));
    assert!(!b.contains_point(b.lower - 1));
}

#[test]
fn aabb2i_grow_and_shrink() {
    let b = Aabb2i::new(Vec2i::new(1, 2), Vec2i::new(5, 8));
    let g = b.grow(Vec2i::new(2, 3));
    assert_eq!(corners(g), (Vec2i::new(-1, -1), Vec2i::new(7, 11)));
    let s = b.shrink(Vec2i::new(1, 2));
    assert_eq!(corners(s), (Vec2i::new(2, 4), Vec2i::new(4, 6)));
    assert_eq!(corners(g.shrink(Vec2i::new(2, 3))), corners(b));
    assert_eq!(corners(b.grow(Vec2i::zero())), corners(b));
    assert_eq!(corners(b.shrink(Vec2i::new(1, 2))), corners(b.grow(Vec2i::new(-1, -2))));
    assert!(b.shrink(Vec2i::new(2, 3)).is_empty());
}

#[test]
fn aabb2i_include_point() {
    let b = Aabb2i::new(Vec2i::new(1, 2), Vec2i::new(5, 8));
    assert_eq!(corners(b.include_point(Vec2i::new(3, 3))), corners(b));
    assert_eq!(
        corners(b.include_point(Vec2i::new(-4, 10))),
        (Vec2i::new(-4, 2), Vec2i::new(5, 10))
    );
    assert_eq!(
        corners(b.include_point(Vec2i::new(9, -1))),
        (Vec2i::new(1, -1), Vec2i::new(9, 8))
    );
}

#[test]
fn aabb2i_include_point_from_empty() {
    let p = Vec2i::new(7, -3);
    let b = Aabb2i::empty().include_point(p);
    assert_eq!(corners(b), (p, p));
    // The upper corner is exclusive, so the box of one included point holds nothing yet.
    assert!(b.is_empty());
    assert!(!b.contains_point(p));
}

#[test]
fn aabb2i_include_point_order_does_not_matter() {
    let points = [Vec2i::new(3, 9), Vec2i::new(-2, 4), Vec2i::new(8, -6), Vec2i::new(0, 0)];
    let mut forward = Aabb2i::empty();
    for p in points {
        forward = forward.include_point(p);
    }
    let mut backward = Aabb2i::empty();
    for p in points.iter().rev() {
        backward = backward.include_point(*p);
    }
    assert_eq!(corners(forward), corners(backward));
    assert_eq!(corners(forward), (Vec2i::new(-2, -6), Vec2i::new(8, 9)));
    assert_eq!(corners(forward.include_point(points[0])), corners(forward));
}

#[test]
fn aabb2i_include_point_keeps_points() {
    let b = Aabb2i::new(Vec2i::new(0, 0), Vec2i::new(4, 4));
    let inside = Vec2i::new(3, 1);
    assert!(b.contains_point(inside));
    let stretched = b.include_point(Vec2i::new(10, -10));
    assert!(stretched.contains_point(inside));
    assert!(stretched.contains_point(Vec2i::new(9, -10)));
    assert!(!stretched.contains_point(Vec2i::new(10, -10)));
}
