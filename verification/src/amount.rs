//! Fixed-point amounts: a whole part and a fraction, scaled by a power of ten
//! into one 256-bit integer, and back.

use vstd::prelude::*;
use vstd::arithmetic::power::pow;
use crate::numeric::{
    lemma_u256_bounded, u256_add, u256_div_mod, u256_limit, u256_mul, u256_pow, U256,
};

verus! {

/// Ten to the power `decimals`: the number of smallest units in one whole.
pub open spec fn scale(decimals: nat) -> nat {
    pow(10, decimals) as nat
}

/// The fixed-point integer of `whole` units and `fraction` smallest units at
/// `decimals` decimal places.
pub open spec fn fixed_point(whole: nat, fraction: nat, decimals: nat) -> nat {
    whole * scale(decimals) + fraction
}

/// The number of whole units in a fixed-point integer.
pub open spec fn whole_part(value: nat, decimals: nat) -> nat {
    value / scale(decimals)
}

/// The number of smallest units beyond the whole units.
pub open spec fn fraction_part(value: nat, decimals: nat) -> nat {
    value % scale(decimals)
}

/// Composes the fixed-point integer `whole * 10^decimals + fraction`, for
/// every whole part, fraction and precision whose result fits in 256 bits.
///
/// The fraction is taken as it is given: a caller that wants `d` decimal
/// places hands in the fraction already cut to `d` digits. Without a whole
/// part the result is the fraction at every precision, however large.
pub fn amount_to_u256(whole: U256, fraction: U256, decimals: i32) -> (r: U256)
    requires
        0 <= decimals,
        fixed_point(whole@, fraction@, decimals as nat) < u256_limit(),
    ensures
        r@ == fixed_point(whole@, fraction@, decimals as nat),
{
    if whole.is_zero() {
        assert(0 * scale(decimals as nat) == 0);
        fraction
    } else {
        proof {
            let s = scale(decimals as nat) as int;
            vstd::arithmetic::power::lemma_pow_positive(10, decimals as nat);
            assert(s <= whole@ * s) by (nonlinear_arith)
                requires
                    whole@ >= 1,
                    s > 0,
            ;
        }
        let ten = U256::from_u64(10);
        let unit = u256_pow(&ten, decimals as u32);
        let scaled = u256_mul(&whole, &unit);
        u256_add(&scaled, &fraction)
    }
}

/// Splits a fixed-point integer into its whole units and the remainder below
/// one unit, both in full, at every precision: where one unit is more than
/// 256 bits can hold there are no whole units and the remainder is the
/// value.
pub fn u256_to_amount(value: U256, decimals: i32) -> (r: (U256, U256))
    requires
        0 <= decimals,
    ensures
        r.0@ == whole_part(value@, decimals as nat),
        r.1@ == fraction_part(value@, decimals as nat),
{
    if decimals <= 77 {
        proof {
            lemma_scale_fits(decimals as nat);
            vstd::arithmetic::power::lemma_pow_positive(10, decimals as nat);
        }
        let ten = U256::from_u64(10);
        let unit = u256_pow(&ten, decimals as u32);
        u256_div_mod(&value, &unit)
    } else {
        proof {
            lemma_scale_exceeds(decimals as nat);
            lemma_u256_bounded(value);
            let s = scale(decimals as nat);
            vstd::arithmetic::div_mod::lemma_basic_div(value@ as int, s as int);
            vstd::arithmetic::div_mod::lemma_small_mod(value@, s);
        }
        (U256::zero(), value)
    }
}

/// Composing and then splitting gives the parts back: for a fraction below
/// one unit, the whole part and the fraction of `fixed_point(whole, fraction,
/// decimals)` are `whole` and `fraction`.
pub proof fn lemma_round_trip(whole: nat, fraction: nat, decimals: nat)
    requires
        fraction < scale(decimals),
    ensures
        whole_part(fixed_point(whole, fraction, decimals), decimals) == whole,
        fraction_part(fixed_point(whole, fraction, decimals), decimals) == fraction,
{
    let s = scale(decimals) as int;
    vstd::arithmetic::div_mod::lemma_fundamental_div_mod_converse(
        fixed_point(whole, fraction, decimals) as int,
        s,
        whole as int,
        fraction as int,
    );
}

/// Splitting and then composing gives the value back.
pub proof fn lemma_split_compose(value: nat, decimals: nat)
    ensures
        fixed_point(whole_part(value, decimals), fraction_part(value, decimals), decimals)
            == value,
        fraction_part(value, decimals) < scale(decimals),
{
    vstd::arithmetic::power::lemma_pow_positive(10, decimals);
    let s = scale(decimals) as int;
    vstd::arithmetic::div_mod::lemma_fundamental_div_mod(value as int, s);
    vstd::arithmetic::div_mod::lemma_mod_bound(value as int, s);
    assert((value as int / s) * s == s * (value as int / s)) by (nonlinear_arith);
}

/// Up to 77 decimal places the scale fits in 256 bits: 10^77 < 2^256.
pub proof fn lemma_scale_fits(decimals: nat)
    requires
        decimals <= 77,
    ensures
        scale(decimals) < u256_limit(),
{
    use_pow10();
    vstd::arithmetic::power::lemma_pow_increases(10, decimals, 77);
    vstd::arithmetic::power::lemma_pow_positive(10, decimals);
    assert(u256_limit()
        == 115792089237316195423570985008687907853269984665640564039457584007913129639936);
}

/// From 78 decimal places on the scale is more than 256 bits can hold:
/// 10^78 > 2^256.
pub proof fn lemma_scale_exceeds(decimals: nat)
    requires
        decimals >= 78,
    ensures
        scale(decimals) >= u256_limit(),
{
    use_pow10();
    vstd::arithmetic::power::lemma_pow_adds(10, 77, 1);
    vstd::arithmetic::power::lemma_pow1(10);
    vstd::arithmetic::power::lemma_pow_increases(10, 78, decimals);
    assert(u256_limit()
        == 115792089237316195423570985008687907853269984665640564039457584007913129639936);
}

/// Up to 57 decimal places every whole part and fraction of 64 bits give an
/// amount that fits in 256 bits.
pub proof fn lemma_amount_fits(whole: u64, fraction: u64, decimals: nat)
    requires
        decimals <= 57,
    ensures
        scale(decimals) < u256_limit(),
        fixed_point(whole as nat, fraction as nat, decimals) < u256_limit(),
{
    lemma_scale_fits(decimals);
    use_pow10();
    vstd::arithmetic::power::lemma_pow_increases(10, decimals, 57);
    vstd::arithmetic::power::lemma_pow_positive(10, decimals);
    let s = scale(decimals) as int;
    let top = pow(10, 57);
    assert(whole * s <= 0xffff_ffff_ffff_ffff * top) by (nonlinear_arith)
        requires
            0 <= whole <= 0xffff_ffff_ffff_ffff,
            0 < s <= top,
    ;
    assert(u256_limit()
        == 115792089237316195423570985008687907853269984665640564039457584007913129639936);
}

/// The powers of ten that bound the scale, as numerals.
proof fn use_pow10()
    ensures
        pow(10, 57) == 1000000000000000000000000000000000000000000000000000000000,
        pow(10, 77)
            == 100000000000000000000000000000000000000000000000000000000000000000000000000000,
{
    vstd::arithmetic::power::lemma_pow1(10);
    vstd::arithmetic::power::lemma_pow_adds(10, 1, 1);
    assert(pow(10, 2) == 100);
    vstd::arithmetic::power::lemma_pow_adds(10, 2, 2);
    assert(pow(10, 4) == 10000);
    vstd::arithmetic::power::lemma_pow_adds(10, 4, 4);
    assert(pow(10, 8) == 100000000);
    vstd::arithmetic::power::lemma_pow_adds(10, 8, 8);
    assert(pow(10, 16) == 10000000000000000);
    vstd::arithmetic::power::lemma_pow_adds(10, 16, 16);
    assert(pow(10, 32) == 100000000000000000000000000000000);
    vstd::arithmetic::power::lemma_pow_adds(10, 32, 16);
    assert(pow(10, 48) == 1000000000000000000000000000000000000000000000000);
    vstd::arithmetic::power::lemma_pow_adds(10, 48, 8);
    assert(pow(10, 56) == 100000000000000000000000000000000000000000000000000000000);
    vstd::arithmetic::power::lemma_pow_adds(10, 56, 1);
    vstd::arithmetic::power::lemma_pow_adds(10, 56, 16);
    assert(pow(10, 72)
        == 1000000000000000000000000000000000000000000000000000000000000000000000000);
    vstd::arithmetic::power::lemma_pow_adds(10, 72, 4);
    assert(pow(10, 76)
        == 10000000000000000000000000000000000000000000000000000000000000000000000000000);
    vstd::arithmetic::power::lemma_pow_adds(10, 76, 1);
}

/// An amount of nothing is the integer zero at every precision.
pub proof fn lemma_zero_amount(decimals: nat)
    ensures
        fixed_point(0, 0, decimals) == 0,
{
}

/// At precision zero the fixed-point integer is the whole part itself.
pub proof fn lemma_no_decimals(whole: nat)
    ensures
        fixed_point(whole, 0, 0) == whole,
{
    vstd::arithmetic::power::lemma_pow0(10);
    assert(scale(0) == 1);
    assert(whole * 1 == whole);
}

} // verus!
