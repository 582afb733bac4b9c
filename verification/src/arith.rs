//! Integer helpers.
use vstd::prelude::*;

verus! {

/// The product of two sizes, or the largest size where the product is larger.
pub open spec fn saturating_product(a: nat, b: nat) -> nat {
    if a * b > usize::MAX {
        usize::MAX as nat
    } else {
        a * b
    }
}

/// Multiplies two sizes, stopping at the largest size.
pub fn saturating_mul(a: usize, b: usize) -> (r: usize)
    ensures
        r == saturating_product(a as nat, b as nat),
{
    match a.checked_mul(b) {
        Some(v) => v,
        None => usize::MAX,
    }
}

/// A number, sign-extended.
pub open spec fn sign_extended(v: i32) -> u64 {
    if v < 0 {
        (v + 0x1_0000_0000_0000_0000) as u64
    } else {
        v as u64
    }
}

/// Widens a number with its sign.
pub fn sign_extend(v: i32) -> (r: u64)
    ensures
        r == sign_extended(v),
{
    if v < 0 {
        u64::MAX - ((-1 - v) as u64)
    } else {
        v as u64
    }
}

/// A product that fits is exact, one that does not is the largest number there is.
pub proof fn law_saturated_products(a: nat, b: nat)
    ensures
        saturating_product(a, b) <= usize::MAX,
        a * b <= usize::MAX ==> saturating_product(a, b) == a * b,
        a * b >= usize::MAX ==> saturating_product(a, b) == usize::MAX,
{
}

/// A number that is widened with its sign keeps its value up to the modulus.
pub proof fn law_widening_keeps_the_sign(v: i32)
    ensures
        v >= 0 ==> sign_extended(v) == v,
        v < 0 ==> sign_extended(v) - 0x1_0000_0000_0000_0000 == v,
{
}

} // verus!
