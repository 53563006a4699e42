use linear_math::Vec2i;
use linear_math::Vec3i;

#[test]
fn vec3i_new_keeps_components() {
    let v = Vec3i::new(3, -4, 5);
    assert_eq!(v.x, 3);
    assert_eq!(v.y, -4);
    assert_eq!(v.z, 5);
}

#[test]
fn vec3i_splat_zero_one() {
    assert_eq!(Vec3i::splat(7), Vec3i::new(7, 7, 7));
    assert_eq!(Vec3i::zero(), Vec3i::new(0, 0, 0));
    assert_eq!(Vec3i::one(), Vec3i::new(1, 1, 1));
    assert_eq!(Vec3i::default(), Vec3i::zero());
}

#[test]
fn vec3i_tuple_conversions() {
    let v = Vec3i::from_tuple((5, -6, 7));
    assert_eq!(v, Vec3i::new(5, -6, 7));
    assert_eq!(v.to_tuple(), (5, -6, 7));
    let t: (i32, i32, i32) = v.into();
    assert_eq!(t, (5, -6, 7));
    assert_eq!(Vec3i::from((5, -6, 7)), v);
}

#[test]
fn vec3i_array_conversions() {
    let v = Vec3i::new(i32::MIN, 0, i32::MAX);
    assert_eq!(v.to_array(), [i32::MIN, 0, i32::MAX]);
    let a: [i32; 3] = v.into();
    assert_eq!(a, [i32::MIN, 0, i32::MAX]);
    assert_eq!(Vec3i::from([i32::MIN, 0, i32::MAX]), v);
}

#[test]
fn vec3i_array_round_trip_is_exact() {
    let samples = [
        Vec3i::new(0, 0, 0),
        Vec3i::new(1, -1, 2),
        Vec3i::new(i32::MAX, i32::MIN, -1),
        Vec3i::new(-123456, 654321, 42),
    ];
    for v in samples {
        assert_eq!(Vec3i::from(v.to_array()), v);
        assert_eq!(Vec3i::from(<[i32; 3]>::from(v)), v);
        assert_eq!(Vec3i::from_tuple(v.to_tuple()), v);
    }
    let a = [17, -29, 31];
    assert_eq!(Vec3i::from(a).to_array(), a);
}

#[test]
fn vec3i_compatible_conversions() {
    let v = Vec3i::new(8, 9, 10);
    let through: Vec3i = v.to_compatible();
    assert_eq!(through, v);
    assert_eq!(Vec3i::from_compatible(v), v);
    assert_eq!(Vec3i::from_compatible([3, 4, 5]), Vec3i::new(3, 4, 5));
    let a: [i32; 3] = v.to_compatible();
    assert_eq!(a, [8, 9, 10]);
}

#[test]
fn vec3i_to_xy_drops_z() {
    assert_eq!(Vec3i::new(1, 2, 3).to_xy(), Vec2i::new(1, 2));
    assert_eq!(Vec2i::new(4, 5).extend(6).to_xy(), Vec2i::new(4, 5));
}

#[test]
fn vec3i_square_length() {
    assert_eq!(Vec3i::new(2, -3, 6).square_length(), 49);
    assert_eq!(Vec3i::zero().square_length(), 0);
}

#[test]
fn vec3i_add_sub_mul_div_between_vectors() {
    let a = Vec3i::new(7, -8, 9);
    let b = Vec3i::new(2, 3, -4);
    assert_eq!(a + b, Vec3i::new(9, -5, 5));
    assert_eq!(a - b, Vec3i::new(5, -11, 13));
    assert_eq!(a * b, Vec3i::new(14, -24, -36));
    assert_eq!(a / b, Vec3i::new(3, -2, -2));
}

#[test]
fn vec3i_scalar_on_the_right() {
    let a = Vec3i::new(7, -8, 9);
    assert_eq!(a + 2, Vec3i::new(9, -6, 11));
    assert_eq!(a - 2, Vec3i::new(5, -10, 7));
    assert_eq!(a * 2, Vec3i::new(14, -16, 18));
    assert_eq!(a / 2, Vec3i::new(3, -4, 4));
    assert_eq!(a * 5, a * Vec3i::splat(5));
}

#[test]
fn vec3i_scalar_on_the_left() {
    let a = Vec3i::new(7, -8, 9);
    assert_eq!(2 + a, Vec3i::new(9, -6, 11));
    assert_eq!(2 - a, Vec3i::new(-5, 10, -7));
    assert_eq!(2 * a, Vec3i::new(14, -16, 18));
    assert_eq!(100 / a, Vec3i::new(14, -12, 11));
    assert_eq!(100 / a, Vec3i::splat(100) / a);
}

#[test]
fn vec3i_remainder_has_sign_of_dividend() {
    assert_eq!(Vec3i::new(7, -7, 8) % Vec3i::new(2, 2, -3), Vec3i::new(1, -1, 2));
    assert_eq!(Vec3i::new(7, -7, 8) % 4, Vec3i::new(3, -3, 0));
    assert_eq!(9 % Vec3i::new(4, -5, 9), Vec3i::new(1, 4, 0));
    let mut v = Vec3i::new(17, -17, 4);
    v %= 5;
    assert_eq!(v, Vec3i::new(2, -2, 4));
    v %= Vec3i::new(2, 2, 3);
    assert_eq!(v, Vec3i::new(0, 0, 1));
    let a = Vec3i::new(100, -100, 37);
    let b = Vec3i::new(7, 7, -5);
    assert_eq!((a / b) * b + a % b, a);
}

#[test]
fn vec3i_assigning_operators() {
    let mut v = Vec3i::new(7, -8, 9);
    v += Vec3i::new(1, 1, 1);
    assert_eq!(v, Vec3i::new(8, -7, 10));
    v -= Vec3i::new(3, -3, 0);
    assert_eq!(v, Vec3i::new(5, -4, 10));
    v *= Vec3i::new(2, 3, -1);
    assert_eq!(v, Vec3i::new(10, -12, -10));
    v /= Vec3i::new(3, 5, 4);
    assert_eq!(v, Vec3i::new(3, -2, -2));
    v += 10;
    assert_eq!(v, Vec3i::new(13, 8, 8));
    v -= 3;
    assert_eq!(v, Vec3i::new(10, 5, 5));
    v *= -3;
    assert_eq!(v, Vec3i::new(-30, -15, -15));
    v /= 4;
    assert_eq!(v, Vec3i::new(-7, -3, -3));
}

#[test]
fn vec3i_negation() {
    assert_eq!(-Vec3i::new(3, -4, 0), Vec3i::new(-3, 4, 0));
    assert_eq!(-(-Vec3i::new(1, 2, 3)), Vec3i::new(1, 2, 3));
}

#[test]
fn vec3i_algebra_on_samples() {
    let a = Vec3i::new(12, -7, 1);
    let b = Vec3i::new(-5, 40, 2);
    let c = Vec3i::new(3, 3, 3);
    assert_eq!(a + b, b + a);
    assert_eq!((a + b) + c, a + (b + c));
    assert_eq!(a * b, b * a);
    assert_eq!(a + Vec3i::zero(), a);
    assert_eq!(a * Vec3i::one(), a);
    assert_eq!(a / Vec3i::one(), a);
    assert_eq!(a - a, Vec3i::zero());
    assert_eq!(a - b, a + (-b));
    assert_eq!((a + b) * 3, a * 3 + b * 3);
}

#[test]
fn vec3i_div_ceil_rounds_up_for_positive_operands() {
    assert_eq!(Vec3i::new(7, 8, 9).div_ceil(Vec3i::new(2, 4, 10)), Vec3i::new(4, 2, 1));
    assert_eq!(Vec3i::new(0, 1, 64).div_ceil(Vec3i::new(5, 5, 16)), Vec3i::new(0, 1, 4));
}

#[test]
fn vec3i_div_ceil_is_no_ceiling_for_negative_operands() {
    // The true ceilings are -1, -3 and 2.
    assert_eq!(
        Vec3i::new(-4, 7, -3).div_ceil(Vec3i::new(3, -2, -2)),
        Vec3i::new(0, -2, 3)
    );
}

#[test]
fn vec3i_sum_and_product() {
    let items = vec![Vec3i::new(1, 2, 3), Vec3i::new(3, -7, 1), Vec3i::new(-10, 4, 2)];
    let total: Vec3i = items.iter().sum();
    assert_eq!(total, Vec3i::new(-6, -1, 6));
    let total_owned: Vec3i = items.clone().into_iter().sum();
    assert_eq!(total_owned, Vec3i::new(-6, -1, 6));
    let product: Vec3i = items.iter().product();
    assert_eq!(product, Vec3i::new(-30, -56, 6));
    let product_owned: Vec3i = items.into_iter().product();
    assert_eq!(product_owned, Vec3i::new(-30, -56, 6));
}

#[test]
fn vec3i_sum_and_product_of_nothing() {
    let none: Vec<Vec3i> = Vec::new();
    let total: Vec3i = none.iter().sum();
    assert_eq!(total, Vec3i::zero());
    let product: Vec3i = none.iter().product();
    assert_eq!(product, Vec3i::one());
}
