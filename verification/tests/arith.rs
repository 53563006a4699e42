use linear_math::arith::{div_toward_zero, rem_toward_zero};

#[test]
fn div_toward_zero_on_all_sign_pairs() {
    assert_eq!(div_toward_zero(7, 2), 3);
    assert_eq!(div_toward_zero(-7, 2), -3);
    assert_eq!(div_toward_zero(7, -2), -3);
    assert_eq!(div_toward_zero(-7, -2), 3);
    assert_eq!(div_toward_zero(0, 5), 0);
    assert_eq!(div_toward_zero(0, -5), 0);
    assert_eq!(div_toward_zero(6, 3), 2);
    assert_eq!(div_toward_zero(-6, 3), -2);
}

#[test]
fn div_toward_zero_at_the_limits() {
    assert_eq!(div_toward_zero(i32::MIN, 1), i32::MIN);
    assert_eq!(div_toward_zero(i32::MIN, 2), -1073741824);
    assert_eq!(div_toward_zero(i32::MIN, i32::MIN), 1);
    assert_eq!(div_toward_zero(i32::MAX, -1), -i32::MAX);
    assert_eq!(div_toward_zero(i32::MAX, i32::MIN), 0);
    assert_eq!(div_toward_zero(i32::MIN, i32::MAX), -1);
}

#[test]
fn div_toward_zero_remainder_has_sign_of_dividend() {
    let pairs = [(7, 2), (-7, 2), (7, -2), (-7, -2), (1, 3), (-1, 3), (100, 7), (-100, 7)];
    for (a, b) in pairs {
        let q = div_toward_zero(a, b);
        let r = a - q * b;
        assert!(r.abs() < b.abs());
        assert!(r == 0 || (r > 0) == (a > 0));
    }
}

#[test]
fn rem_toward_zero_on_all_sign_pairs() {
    assert_eq!(rem_toward_zero(7, 2), 1);
    assert_eq!(rem_toward_zero(-7, 2), -1);
    assert_eq!(rem_toward_zero(7, -2), 1);
    assert_eq!(rem_toward_zero(-7, -2), -1);
    assert_eq!(rem_toward_zero(0, 5), 0);
    assert_eq!(rem_toward_zero(6, 3), 0);
    assert_eq!(rem_toward_zero(i32::MIN, 2), 0);
    assert_eq!(rem_toward_zero(i32::MIN, i32::MAX), -1);
    assert_eq!(rem_toward_zero(i32::MAX, i32::MIN), i32::MAX);
}

#[test]
fn quotient_and_remainder_make_up_the_dividend() {
    let pairs = [(7, 2), (-7, 2), (7, -2), (-7, -2), (i32::MIN, 3), (i32::MAX, -3)];
    for (a, b) in pairs {
        assert_eq!(div_toward_zero(a, b) * b + rem_toward_zero(a, b), a);
    }
}
