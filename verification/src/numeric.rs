//! 256-bit unsigned integers as plain limbs, with their value as a `nat`.
//!
//! The limbs are data of this library; the arithmetic on them is done by
//! `web3::types::U256`, behind the private functions at the end of this file.

use vstd::prelude::*;
use vstd::arithmetic::power::pow;

verus! {

/// 2^64, the weight of one limb.
pub open spec fn limb_base() -> nat {
    0x1_0000_0000_0000_0000
}

/// 2^256, one more than the largest value of a [`U256`].
pub open spec fn u256_limit() -> nat {
    limb_base() * limb_base() * limb_base() * limb_base()
}

/// The number that a byte string denotes when read as a big-endian integer.
pub open spec fn be_value(bytes: Seq<u8>) -> nat
    decreases bytes.len(),
{
    if bytes.len() == 0 {
        0
    } else {
        be_value(bytes.drop_last()) * 256 + bytes.last() as nat
    }
}

/// An unsigned 256-bit integer, held as four 64-bit limbs, least significant
/// first.
#[derive(Clone, Copy, Debug, PartialEq, Eq, Structural)]
pub struct U256 {
    pub l0: u64,
    pub l1: u64,
    pub l2: u64,
    pub l3: u64,
}

impl View for U256 {
    type V = nat;

    open spec fn view(&self) -> nat {
        (self.l0 as nat) + (self.l1 as nat) * limb_base() + (self.l2 as nat) * limb_base()
            * limb_base() + (self.l3 as nat) * limb_base() * limb_base() * limb_base()
    }
}

impl U256 {
    /// The integer zero.
    pub fn zero() -> (r: U256)
        ensures
            r@ == 0,
    {
        U256 { l0: 0, l1: 0, l2: 0, l3: 0 }
    }

    /// The 256-bit integer with the value of `value`.
    pub fn from_u64(value: u64) -> (r: U256)
        ensures
            r@ == value as nat,
    {
        U256 { l0: value, l1: 0, l2: 0, l3: 0 }
    }

    /// Whether the integer is zero.
    pub fn is_zero(&self) -> (r: bool)
        ensures
            r == (self@ == 0),
    {
        proof {
            lemma_zero_limbs(*self);
        }
        self.l0 == 0 && self.l1 == 0 && self.l2 == 0 && self.l3 == 0
    }
}

/// A value is zero exactly when all its limbs are.
pub proof fn lemma_zero_limbs(x: U256)
    ensures
        x@ == 0 <==> (x.l0 == 0 && x.l1 == 0 && x.l2 == 0 && x.l3 == 0),
{
    let b = limb_base() as int;
    assert(x@ == 0 ==> (x.l0 == 0 && x.l1 == 0 && x.l2 == 0 && x.l3 == 0)) by (nonlinear_arith)
        requires
            b == 0x1_0000_0000_0000_0000,
            x.l0 >= 0,
            x.l1 >= 0,
            x.l2 >= 0,
            x.l3 >= 0,
            x@ == (x.l0 as int) + (x.l1 as int) * b + (x.l2 as int) * b * b + (x.l3 as int) * b
                * b * b,
    ;
}

/// Every [`U256`] is below 2^256.
pub proof fn lemma_u256_bounded(x: U256)
    ensures
        x@ < u256_limit(),
{
    let b = limb_base() as int;
    assert(x@ < b * b * b * b) by (nonlinear_arith)
        requires
            b == 0x1_0000_0000_0000_0000,
            0 <= x.l0 < b,
            0 <= x.l1 < b,
            0 <= x.l2 < b,
            0 <= x.l3 < b,
            x@ == (x.l0 as int) + (x.l1 as int) * b + (x.l2 as int) * b * b + (x.l3 as int) * b
                * b * b,
    ;
}

/// `+` of `web3::types::U256`: the exact sum. The outside operator panics
/// when the sum does not fit in 256 bits, so such operands are left out.
#[verifier::external_body]
pub(crate) fn u256_add(a: &U256, b: &U256) -> (r: U256)
    requires
        a@ + b@ < u256_limit(),
    ensures
        r@ == a@ + b@,
{
    let r = web3::types::U256([a.l0, a.l1, a.l2, a.l3]) + web3::types::U256([b.l0, b.l1, b.l2, b.l3]);
    U256 { l0: r.0[0], l1: r.0[1], l2: r.0[2], l3: r.0[3] }
}

/// `*` of `web3::types::U256`: the exact product. The outside operator
/// panics when the product does not fit in 256 bits, so such operands are
/// left out.
#[verifier::external_body]
pub(crate) fn u256_mul(a: &U256, b: &U256) -> (r: U256)
    requires
        a@ * b@ < u256_limit(),
    ensures
        r@ == a@ * b@,
{
    let r = web3::types::U256([a.l0, a.l1, a.l2, a.l3]) * web3::types::U256([b.l0, b.l1, b.l2, b.l3]);
    U256 { l0: r.0[0], l1: r.0[1], l2: r.0[2], l3: r.0[3] }
}

/// `web3::types::U256::pow`: exponentiation by squaring, which gives the
/// exact power and panics when that does not fit in 256 bits; such operands
/// are left out.
#[verifier::external_body]
pub(crate) fn u256_pow(base: &U256, exponent: u32) -> (r: U256)
    requires
        pow(base@ as int, exponent as nat) < u256_limit(),
    ensures
        r@ == pow(base@ as int, exponent as nat),
{
    let r = web3::types::U256([base.l0, base.l1, base.l2, base.l3]).pow(web3::types::U256::from(exponent));
    U256 { l0: r.0[0], l1: r.0[1], l2: r.0[2], l3: r.0[3] }
}

/// `web3::types::U256::div_mod`: the pair of quotient and remainder. The
/// outside function panics on a zero divisor, which is left out.
#[verifier::external_body]
pub(crate) fn u256_div_mod(a: &U256, b: &U256) -> (r: (U256, U256))
    requires
        b@ != 0,
    ensures
        r.0@ == a@ / b@,
        r.1@ == a@ % b@,
{
    let (q, m) = web3::types::U256([a.l0, a.l1, a.l2, a.l3]).div_mod(web3::types::U256([b.l0, b.l1, b.l2, b.l3]));
    (U256 { l0: q.0[0], l1: q.0[1], l2: q.0[2], l3: q.0[3] }, U256 { l0: m.0[0], l1: m.0[1], l2: m.0[2], l3: m.0[3] })
}

/// `From<[u8; 32]>` of `web3::types::U256`: the bytes read as one big-endian
/// integer.
#[verifier::external_body]
pub(crate) fn u256_from_big_endian(bytes: &[u8; 32]) -> (r: U256)
    ensures
        r@ == be_value(bytes@),
{
    let r = web3::types::U256::from(*bytes);
    U256 { l0: r.0[0], l1: r.0[1], l2: r.0[2], l3: r.0[3] }
}

} // verus!
