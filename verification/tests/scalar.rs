use rsrl::scalar::{max, Fixed, Scalar, FIXED_ONE};

#[test]
fn fixed_constants() {
    assert_eq!(Fixed::zero().raw, 0);
    assert_eq!(Fixed::one().raw, FIXED_ONE);
    assert_eq!(FIXED_ONE, 1i64 << 32);
    assert_eq!(Fixed::from_int(3).raw, 3 * FIXED_ONE);
    assert_eq!(Fixed::from_int(-3).raw, -3 * FIXED_ONE);
    assert_eq!(Fixed::from_count(7), Fixed::from_int(7));
    assert_eq!(Fixed::from_raw(5).raw, 5);
}

#[test]
fn fixed_add_sub_neg() {
    let a = Fixed::ratio(3, 2);
    let b = Fixed::ratio(1, 4);
    assert_eq!(a.add(b), Fixed::ratio(7, 4));
    assert_eq!(a.sub(b), Fixed::ratio(5, 4));
    assert_eq!(b.sub(a), Fixed::ratio(-5, 4));
    assert_eq!(a.neg(), Fixed::ratio(-3, 2));
    assert_eq!(Fixed::zero().neg(), Fixed::zero());
}

#[test]
fn fixed_mul_div_truncate_toward_zero() {
    let half = Fixed::ratio(1, 2);
    assert_eq!(Fixed::from_int(6).mul(half), Fixed::from_int(3));
    assert_eq!(Fixed::from_int(-6).mul(half), Fixed::from_int(-3));
    assert_eq!(Fixed::from_raw(1).mul(half), Fixed::from_raw(0));
    assert_eq!(Fixed::from_raw(-1).mul(half), Fixed::from_raw(0));
    assert_eq!(Fixed::from_raw(3).mul(half), Fixed::from_raw(1));
    assert_eq!(Fixed::from_raw(-3).mul(half), Fixed::from_raw(-1));
    assert_eq!(Fixed::from_int(1).div(Fixed::from_int(4)), Fixed::ratio(1, 4));
    assert_eq!(Fixed::from_int(-1).div(Fixed::from_int(4)).raw, -(FIXED_ONE / 4));
    assert_eq!(Fixed::from_int(1).div(Fixed::from_int(3)).raw, FIXED_ONE / 3);
    assert_eq!(Fixed::from_int(-1).div(Fixed::from_int(3)).raw, -(FIXED_ONE / 3));
    assert_eq!(Fixed::from_int(1).div(Fixed::from_int(-3)).raw, -(FIXED_ONE / 3));
    assert_eq!(Fixed::from_int(-1).div(Fixed::from_int(-3)).raw, FIXED_ONE / 3);
}

#[test]
fn fixed_one_and_zero_are_identities() {
    let x = Fixed::from_raw(-123456789012345);
    assert_eq!(Fixed::one().mul(x), x);
    assert_eq!(x.mul(Fixed::one()), x);
    assert_eq!(Fixed::zero().mul(x), Fixed::zero());
    assert_eq!(x.add(Fixed::zero()), x);
    assert_eq!(x.div(Fixed::one()), x);
}

#[test]
fn fixed_saturates() {
    let big = Fixed::from_raw(i64::MAX);
    let small = Fixed::from_raw(i64::MIN);
    assert_eq!(big.add(Fixed::one()), big);
    assert_eq!(small.sub(Fixed::one()), small);
    assert_eq!(small.neg(), big);
    assert_eq!(big.mul(Fixed::from_int(2)), big);
    assert_eq!(big.mul(Fixed::from_int(-2)), small);
    assert_eq!(Fixed::from_int(i64::MAX), big);
    assert_eq!(Fixed::from_int(i64::MIN), small);
    assert_eq!(Fixed::from_count(usize::MAX), big);
}

#[test]
fn fixed_division_by_zero_goes_to_the_extremes() {
    assert_eq!(Fixed::one().div(Fixed::zero()).raw, i64::MAX);
    assert_eq!(Fixed::one().neg().div(Fixed::zero()).raw, i64::MIN);
    assert_eq!(Fixed::zero().div(Fixed::zero()).raw, 0);
}

#[test]
fn fixed_order_and_max() {
    let a = Fixed::from_int(1);
    let b = Fixed::from_int(2);
    assert!(a.lt(b));
    assert!(!b.lt(a));
    assert!(!a.lt(a));
    assert_eq!(max(a, b), b);
    assert_eq!(max(b, a), b);
    assert_eq!(max(a, a), a);
}
