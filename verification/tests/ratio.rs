use abs_ratio::{
    abs_ratio, abs_ratio_i, abs_ratio_nz, checked_abs_ratio_i, Int128, NonZeroI128, RatioOps,
};

#[test]
fn i_works() {
    assert_eq!(abs_ratio_i(2, 2), 1);
    assert_eq!(checked_abs_ratio_i(2, 2), Some(1));
    assert_eq!(checked_abs_ratio_i(1, 0), None);
    assert_eq!(checked_abs_ratio_i(0, 1), None);
}

#[test]
fn i_truncates() {
    assert_eq!(abs_ratio_i(7, 2), 3);
    assert_eq!(abs_ratio_i(2, 7), 3);
    assert_eq!(abs_ratio_i(1, 5), 5);
}

#[test]
fn i_sign_invariance() {
    assert_eq!(abs_ratio_i(6, 2), 3);
    assert_eq!(abs_ratio_i(-6, -2), 3);
    assert_eq!(abs_ratio_i(-6, 2), 3);
    assert_eq!(abs_ratio_i(6, -2), 3);
}

#[test]
fn i_minimum_magnitude_does_not_overflow() {
    assert_eq!(abs_ratio_i(i128::MIN, i128::MIN), 1);
    assert_eq!(abs_ratio_i(i128::MIN, 1), 1u128 << 127);
    assert_eq!(abs_ratio_i(-1, i128::MIN), 1u128 << 127);
    assert_eq!(checked_abs_ratio_i(i128::MIN, -1), Some(1u128 << 127));
}

#[test]
fn checked_both_zero() {
    assert_eq!(checked_abs_ratio_i(0, 0), None);
    assert_eq!(checked_abs_ratio_i(-3, -3), Some(1));
}

#[test]
fn nz_rejects_zero_and_keeps_value() {
    assert!(NonZeroI128::new(0).is_none());
    assert_eq!(NonZeroI128::new(-5).unwrap().get(), -5);
    assert_eq!(NonZeroI128::new(i128::MIN).unwrap().get(), i128::MIN);
}

#[test]
fn nz_works() {
    let x = NonZeroI128::new(-6).unwrap();
    let y = NonZeroI128::new(2).unwrap();
    assert_eq!(abs_ratio_nz(x, y), 3);
    assert_eq!(abs_ratio_nz(y, x), 3);
    let m = NonZeroI128::new(i128::MIN).unwrap();
    assert_eq!(abs_ratio_nz(m, m), 1);
    let one = NonZeroI128::new(1).unwrap();
    assert_eq!(abs_ratio_nz(m, one), 1u128 << 127);
}

#[test]
fn generic_matches_integer() {
    let pairs: [(i128, i128); 6] = [(6, 2), (-6, 2), (2, -7), (-2, -7), (5, 5), (1, 100)];
    for (x, y) in pairs {
        let g = abs_ratio(Int128 { v: x }, Int128 { v: y });
        assert_eq!(g.v as u128, abs_ratio_i(x, y));
    }
}

#[test]
fn generic_division_truncates_toward_zero() {
    assert_eq!(Int128 { v: -7 }.div(&Int128 { v: 2 }).v, -3);
    assert_eq!(Int128 { v: 7 }.div(&Int128 { v: -2 }).v, -3);
    assert_eq!(Int128 { v: -7 }.div(&Int128 { v: -2 }).v, 3);
    assert_eq!(Int128 { v: i128::MIN }.div(&Int128 { v: 1 }).v, i128::MIN);
}

#[test]
fn generic_magnitude_is_larger_of_value_and_negation() {
    assert_eq!(Int128 { v: -9 }.neg().v, 9);
    assert!(Int128 { v: -9 }.le(&Int128 { v: 9 }));
    assert_eq!(abs_ratio(Int128 { v: -9 }, Int128 { v: -9 }).v, 1);
}
