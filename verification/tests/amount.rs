use scam_ico::amount::{amount_to_u256, u256_to_amount};
use scam_ico::numeric::U256;

fn num(n: u64) -> U256 {
    U256::from_u64(n)
}

fn split_decimal(a: f64, decimals: i32) -> (U256, U256) {
    (num(a.trunc() as u64), num((a.fract() * (10.0f64).powi(decimals)) as u64))
}

fn join_decimal(whole: U256, fraction: U256, decimals: i32) -> f64 {
    assert!(whole.l1 == 0 && whole.l2 == 0 && whole.l3 == 0);
    assert!(fraction.l1 == 0 && fraction.l2 == 0 && fraction.l3 == 0);
    whole.l0 as f64 + (fraction.l0 as f64) * (10.0f64).powi(-decimals)
}

fn outside(value: U256) -> web3::types::U256 {
    web3::types::U256([value.l0, value.l1, value.l2, value.l3])
}

fn inside(value: web3::types::U256) -> U256 {
    U256 { l0: value.0[0], l1: value.0[1], l2: value.0[2], l3: value.0[3] }
}

fn power_of_ten(n: usize) -> web3::types::U256 {
    web3::types::U256::exp10(n)
}

#[test]
fn amount_is_truncated_to_the_precision() {
    let (whole, fraction) = split_decimal(1.23456, 2);
    assert_eq!((whole, fraction), (num(1), num(23)));
    assert_eq!(amount_to_u256(whole, fraction, 2), num(123));
}

#[test]
fn fixed_point_splits_into_whole_and_fraction() {
    let (whole, fraction) = u256_to_amount(num(123), 2);
    assert_eq!((whole, fraction), (num(1), num(23)));
    assert!((join_decimal(whole, fraction, 2) - 1.23).abs() < 1e-12);
}

#[test]
fn zero_amount_is_zero_at_every_precision() {
    for decimals in [0, 1, 18, 77, 78, 79, 1000, i32::MAX] {
        assert_eq!(amount_to_u256(U256::zero(), U256::zero(), decimals), U256::zero());
    }
}

#[test]
fn whole_amount_without_decimals_is_itself() {
    assert_eq!(amount_to_u256(num(5), num(0), 0), num(5));
}

#[test]
fn one_and_a_half_ether_in_wei() {
    let r = amount_to_u256(num(1), num(500_000_000_000_000_000), 18);
    assert_eq!(r, num(1_500_000_000_000_000_000));
}

#[test]
fn amount_beyond_one_limb_matches_the_outside_integer() {
    let r = amount_to_u256(num(u64::MAX), num(7), 18);
    let expected = web3::types::U256::from(u64::MAX) * power_of_ten(18) + web3::types::U256::from(7u64);
    assert_eq!(outside(r), expected);
    assert_ne!(r.l1, 0);
}

#[test]
fn whole_part_beyond_sixty_four_bits_is_composed_in_full() {
    let whole = power_of_ten(30);
    let r = amount_to_u256(inside(whole), num(5), 18);
    assert_eq!(outside(r), power_of_ten(48) + web3::types::U256::from(5u64));
}

#[test]
fn largest_amount_is_composed() {
    let max = web3::types::U256::max_value();
    let (q, m) = max.div_mod(power_of_ten(18));
    assert_eq!(outside(amount_to_u256(inside(q), inside(m), 18)), max);
    assert_eq!(outside(amount_to_u256(inside(max), num(0), 0)), max);
    assert_eq!(outside(amount_to_u256(num(0), inside(max), 500)), max);
}

#[test]
fn fraction_is_added_as_given() {
    // A fraction of a whole unit or more is not reduced.
    assert_eq!(amount_to_u256(num(2), num(150), 2), num(350));
}

#[test]
fn round_trip_gives_the_parts_back() {
    for &(whole, fraction, decimals) in [
        (0u64, 1u64, 18),
        (7, 999_999, 6),
        (4_000_000_000, 0, 9),
        (5_000_000_000, 0, 0),
        (u64::MAX, 999_999_999_999_999_999, 18),
        (12, 34, 2),
        (1, 0, 0),
    ]
    .iter()
    {
        let value = amount_to_u256(num(whole), num(fraction), decimals);
        assert_eq!(u256_to_amount(value, decimals), (num(whole), num(fraction)));
    }
}

#[test]
fn round_trip_of_a_whole_part_beyond_sixty_four_bits() {
    let whole = inside(power_of_ten(40));
    let value = amount_to_u256(whole, num(17), 18);
    assert_eq!(u256_to_amount(value, 18), (whole, num(17)));
}

#[test]
fn five_billion_without_decimals_splits_to_itself() {
    assert_eq!(u256_to_amount(num(5_000_000_000), 0), (num(5_000_000_000), num(0)));
    assert_eq!(join_decimal(num(5_000_000_000), num(0), 0), 5_000_000_000.0);
}

#[test]
fn remainder_is_given_in_full() {
    // 10^20 + 5 split at 30 decimals: no whole unit, and a remainder that
    // does not fit in 64 bits.
    let value = amount_to_u256(num(10), num(5), 19);
    let (whole, fraction) = u256_to_amount(value, 30);
    assert_eq!(whole, U256::zero());
    assert_eq!(outside(fraction), power_of_ten(20) + web3::types::U256::from(5u64));
}

#[test]
fn split_at_the_largest_scale_that_fits() {
    let max = web3::types::U256::max_value();
    let (q, m) = max.div_mod(power_of_ten(77));
    assert_eq!(u256_to_amount(inside(max), 77), (inside(q), inside(m)));
    assert_eq!(q, web3::types::U256::from(1u64));
}

#[test]
fn split_beyond_every_scale_that_fits_has_no_whole_part() {
    let max = inside(web3::types::U256::max_value());
    for decimals in [78, 79, 1000, i32::MAX] {
        assert_eq!(u256_to_amount(max, decimals), (U256::zero(), max));
        assert_eq!(u256_to_amount(num(9), decimals), (U256::zero(), num(9)));
    }
}

#[test]
fn zero_is_told_from_other_integers() {
    assert!(U256::zero().is_zero());
    assert!(!num(1).is_zero());
    assert!(!U256 { l0: 0, l1: 0, l2: 0, l3: 1 }.is_zero());
    assert!(!U256 { l0: 0, l1: 7, l2: 0, l3: 0 }.is_zero());
    assert!(!U256 { l0: 0, l1: 0, l2: 9, l3: 0 }.is_zero());
}
