use linear_math::Vec2i;
use linear_math::Vec3i;

#[test]
fn vec2i_new_keeps_components() {
    let v = Vec2i::new(3, -4);
    assert_eq!(v.x, 3);
    assert_eq!(v.y, -4);
}

#[test]
fn vec2i_splat_zero_one() {
    assert_eq!(Vec2i::splat(7), Vec2i::new(7, 7));
    assert_eq!(Vec2i::zero(), Vec2i::new(0, 0));
    assert_eq!(Vec2i::one(), Vec2i::new(1, 1));
    assert_eq!(Vec2i::default(), Vec2i::zero());
}

#[test]
fn vec2i_tuple_conversions() {
    let v = Vec2i::from_tuple((5, -6));
    assert_eq!(v, Vec2i::new(5, -6));
    assert_eq!(v.to_tuple(), (5, -6));
    let t: (i32, i32) = v.into();
    assert_eq!(t, (5, -6));
    assert_eq!(Vec2i::from((5, -6)), v);
}

#[test]
fn vec2i_array_conversions() {
    let v = Vec2i::new(i32::MIN, i32::MAX);
    assert_eq!(v.to_array(), [i32::MIN, i32::MAX]);
    let a: [i32; 2] = v.into();
    assert_eq!(a, [i32::MIN, i32::MAX]);
    assert_eq!(Vec2i::from([i32::MIN, i32::MAX]), v);
}

#[test]
fn vec2i_array_round_trip_is_exact() {
    let samples = [
        Vec2i::new(0, 0),
        Vec2i::new(1, -1),
        Vec2i::new(i32::MAX, i32::MIN),
        Vec2i::new(-123456, 654321),
    ];
    for v in samples {
        assert_eq!(Vec2i::from(v.to_array()), v);
        assert_eq!(Vec2i::from(<[i32; 2]>::from(v)), v);
        assert_eq!(Vec2i::from_tuple(v.to_tuple()), v);
    }
    let a = [17, -29];
    assert_eq!(Vec2i::from(a).to_array(), a);
}

#[test]
fn vec2i_compatible_conversions() {
    let v = Vec2i::new(8, 9);
    let through: Vec2i = v.to_compatible();
    assert_eq!(through, v);
    assert_eq!(Vec2i::from_compatible(v), v);
    assert_eq!(Vec2i::from_compatible([3, 4]), Vec2i::new(3, 4));
    let a: [i32; 2] = v.to_compatible();
    assert_eq!(a, [8, 9]);
}

#[test]
fn vec2i_extend_and_transpose() {
    let v = Vec2i::new(1, 2);
    assert_eq!(v.extend(3), Vec3i::new(1, 2, 3));
    assert_eq!(v.transpose(), Vec2i::new(2, 1));
    assert_eq!(v.transpose().transpose(), v);
}

#[test]
fn vec2i_square_length() {
    assert_eq!(Vec2i::new(3, -4).square_length(), 25);
    assert_eq!(Vec2i::zero().square_length(), 0);
    assert_eq!(Vec2i::new(-46340, 0).square_length(), 2147395600);
}

#[test]
fn vec2i_add_sub_mul_div_between_vectors() {
    let a = Vec2i::new(7, -8);
    let b = Vec2i::new(2, 3);
    assert_eq!(a + b, Vec2i::new(9, -5));
    assert_eq!(a - b, Vec2i::new(5, -11));
    assert_eq!(a * b, Vec2i::new(14, -24));
    assert_eq!(a / b, Vec2i::new(3, -2));
}

#[test]
fn vec2i_scalar_on_the_right() {
    let a = Vec2i::new(7, -8);
    assert_eq!(a + 2, Vec2i::new(9, -6));
    assert_eq!(a - 2, Vec2i::new(5, -10));
    assert_eq!(a * 2, Vec2i::new(14, -16));
    assert_eq!(a / 2, Vec2i::new(3, -4));
    assert_eq!(a + 2, a + Vec2i::splat(2));
    assert_eq!(a / 3, a / Vec2i::splat(3));
}

#[test]
fn vec2i_scalar_on_the_left() {
    let a = Vec2i::new(7, -8);
    assert_eq!(2 + a, Vec2i::new(9, -6));
    assert_eq!(2 - a, Vec2i::new(-5, 10));
    assert_eq!(2 * a, Vec2i::new(14, -16));
    assert_eq!(100 / a, Vec2i::new(14, -12));
    assert_eq!(2 - a, Vec2i::splat(2) - a);
    assert_eq!(100 / a, Vec2i::splat(100) / a);
}

#[test]
fn vec2i_division_rounds_toward_zero() {
    assert_eq!(Vec2i::new(-7, 7) / 2, Vec2i::new(-3, 3));
    assert_eq!(Vec2i::new(-7, 7) / -2, Vec2i::new(3, -3));
    assert_eq!(Vec2i::new(-1, 1) / 2, Vec2i::new(0, 0));
    assert_eq!(Vec2i::new(i32::MIN, i32::MAX) / 1, Vec2i::new(i32::MIN, i32::MAX));
    assert_eq!(Vec2i::new(i32::MIN, i32::MAX) / 2, Vec2i::new(-1073741824, 1073741823));
    assert_eq!(Vec2i::new(i32::MAX, i32::MIN + 1) / -1, Vec2i::new(i32::MIN + 1, i32::MAX));
}

#[test]
fn vec2i_remainder_has_sign_of_dividend() {
    assert_eq!(Vec2i::new(7, -7) % Vec2i::new(2, 2), Vec2i::new(1, -1));
    assert_eq!(Vec2i::new(7, -7) % Vec2i::new(-2, -2), Vec2i::new(1, -1));
    assert_eq!(Vec2i::new(7, -7) % 3, Vec2i::new(1, -1));
    assert_eq!(7 % Vec2i::new(4, -5), Vec2i::new(3, 2));
    assert_eq!(Vec2i::new(i32::MIN, i32::MAX) % 2, Vec2i::new(0, 1));
    assert_eq!(Vec2i::new(6, -9) % 3, Vec2i::zero());
    let mut v = Vec2i::new(17, -17);
    v %= 5;
    assert_eq!(v, Vec2i::new(2, -2));
    v %= Vec2i::new(2, 2);
    assert_eq!(v, Vec2i::new(0, 0));
}

#[test]
fn vec2i_quotient_and_remainder_make_up_the_dividend() {
    let dividends = [Vec2i::new(7, -7), Vec2i::new(100, -1), Vec2i::new(i32::MIN, i32::MAX)];
    let divisors = [Vec2i::new(2, 2), Vec2i::new(-3, 5), Vec2i::new(7, -7)];
    for a in dividends {
        for b in divisors {
            assert_eq!((a / b) * b + a % b, a);
        }
    }
}

#[test]
fn vec2i_assigning_operators() {
    let mut v = Vec2i::new(7, -8);
    v += Vec2i::new(1, 1);
    assert_eq!(v, Vec2i::new(8, -7));
    v -= Vec2i::new(3, -3);
    assert_eq!(v, Vec2i::new(5, -4));
    v *= Vec2i::new(2, 3);
    assert_eq!(v, Vec2i::new(10, -12));
    v /= Vec2i::new(3, 5);
    assert_eq!(v, Vec2i::new(3, -2));
    v += 10;
    assert_eq!(v, Vec2i::new(13, 8));
    v -= 3;
    assert_eq!(v, Vec2i::new(10, 5));
    v *= -3;
    assert_eq!(v, Vec2i::new(-30, -15));
    v /= 4;
    assert_eq!(v, Vec2i::new(-7, -3));
}

#[test]
fn vec2i_assigning_matches_binary() {
    let a = Vec2i::new(21, -34);
    let b = Vec2i::new(5, 8);
    let mut v = a;
    v += b;
    assert_eq!(v, a + b);
    let mut v = a;
    v -= b;
    assert_eq!(v, a - b);
    let mut v = a;
    v *= b;
    assert_eq!(v, a * b);
    let mut v = a;
    v /= b;
    assert_eq!(v, a / b);
}

#[test]
fn vec2i_negation() {
    assert_eq!(-Vec2i::new(3, -4), Vec2i::new(-3, 4));
    assert_eq!(-Vec2i::zero(), Vec2i::zero());
    assert_eq!(-(-Vec2i::new(i32::MAX, -i32::MAX)), Vec2i::new(i32::MAX, -i32::MAX));
}

#[test]
fn vec2i_algebra_on_samples() {
    let a = Vec2i::new(12, -7);
    let b = Vec2i::new(-5, 40);
    let c = Vec2i::new(3, 3);
    assert_eq!(a + b, b + a);
    assert_eq!((a + b) + c, a + (b + c));
    assert_eq!(a * b, b * a);
    assert_eq!(a + Vec2i::zero(), a);
    assert_eq!(a * Vec2i::one(), a);
    assert_eq!(a / Vec2i::one(), a);
    assert_eq!(a - a, Vec2i::zero());
    assert_eq!(a - b, a + (-b));
    assert_eq!((a + b) - b, a);
    assert_eq!((a + b) * 3, a * 3 + b * 3);
}

#[test]
fn vec2i_div_ceil_rounds_up_for_positive_operands() {
    assert_eq!(Vec2i::new(7, 8).div_ceil(Vec2i::new(2, 4)), Vec2i::new(4, 2));
    assert_eq!(Vec2i::new(0, 1).div_ceil(Vec2i::new(5, 5)), Vec2i::new(0, 1));
    assert_eq!(Vec2i::new(9, 10).div_ceil(Vec2i::new(3, 3)), Vec2i::new(3, 4));
    assert_eq!(Vec2i::new(100, 1).div_ceil(Vec2i::new(16, 1)), Vec2i::new(7, 1));
}

#[test]
fn vec2i_div_ceil_is_no_ceiling_for_negative_operands() {
    // The true ceiling of -4/3 is -1 and that of 7/-2 is -3.
    assert_eq!(Vec2i::new(-4, 7).div_ceil(Vec2i::new(3, -2)), Vec2i::new(0, -2));
    assert_eq!(Vec2i::new(-7, -8).div_ceil(Vec2i::new(2, 3)), Vec2i::new(-3, -2));
}

#[test]
fn vec2i_sum_and_product() {
    let items = vec![Vec2i::new(1, 2), Vec2i::new(3, -7), Vec2i::new(-10, 4)];
    let total: Vec2i = items.iter().sum();
    assert_eq!(total, Vec2i::new(-6, -1));
    let total_owned: Vec2i = items.clone().into_iter().sum();
    assert_eq!(total_owned, Vec2i::new(-6, -1));
    let product: Vec2i = items.iter().product();
    assert_eq!(product, Vec2i::new(-30, -56));
    let product_owned: Vec2i = items.into_iter().product();
    assert_eq!(product_owned, Vec2i::new(-30, -56));
}

#[test]
fn vec2i_sum_and_product_of_nothing() {
    let none: Vec<Vec2i> = Vec::new();
    let total: Vec2i = none.iter().sum();
    assert_eq!(total, Vec2i::zero());
    let product: Vec2i = none.iter().product();
    assert_eq!(product, Vec2i::one());
    let total_owned: Vec2i = none.clone().into_iter().sum();
    assert_eq!(total_owned, Vec2i::zero());
    let product_owned: Vec2i = none.into_iter().product();
    assert_eq!(product_owned, Vec2i::one());
}

#[test]
fn vec2i_sum_of_joined_sequences() {
    let a = vec![Vec2i::new(1, 1), Vec2i::new(2, -2)];
    let b = vec![Vec2i::new(10, 20), Vec2i::new(-30, 40), Vec2i::new(5, 5)];
    let sum_a: Vec2i = a.iter().sum();
    let sum_b: Vec2i = b.iter().sum();
    let joined: Vec2i = a.iter().chain(b.iter()).sum();
    assert_eq!(joined, sum_a + sum_b);
    let product_a: Vec2i = a.iter().product();
    let product_b: Vec2i = b.iter().product();
    let joined_product: Vec2i = a.iter().chain(b.iter()).product();
    assert_eq!(joined_product, product_a * product_b);
}
