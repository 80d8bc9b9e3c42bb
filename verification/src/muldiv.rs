//! Full-precision `a * b / d` with a caller-chosen rounding direction.
//!
//! The product is formed in 512 bits so that it never overflows; the call
//! fails only on a zero divisor or when the rounded quotient does not fit in
//! 256 bits.
use vstd::prelude::*;

verus! {

use vstd::arithmetic::div_mod::lemma_fundamental_div_mod;
use vstd::arithmetic::div_mod::lemma_div_nonincreasing;
use vstd::arithmetic::div_mod::lemma_div_is_ordered_by_denominator;
use crate::wide::U256;
use crate::wide::U512;
use crate::wide::u256_full_mul;
use crate::wide::u512_add;
use crate::wide::u512_div_mod;
use crate::wide::lemma_u512_bound;

/// `n / d` rounded up; meaningful only for `d > 0`.
pub open spec fn div_up(n: nat, d: nat) -> nat {
    if n % d == 0 {
        n / d
    } else {
        n / d + 1
    }
}

/// The exact rounded quotient `a * b / d` that [`muldiv`] computes.
pub open spec fn muldiv_quotient(a: nat, b: nat, d: nat, round_up: bool) -> nat {
    if round_up {
        div_up(a * b, d)
    } else {
        (a * b) / d
    }
}

/// Computes `a * b / d` without intermediate overflow, rounding down, or up
/// when `round_up` is set. Returns `None` exactly when the divisor is zero or
/// the rounded quotient needs more than 256 bits.
pub fn muldiv(a: &U256, b: &U256, d: &U256, round_up: bool) -> (r: Option<U256>)
    ensures
        (r is Some) <==> (d.as_nat() > 0 && muldiv_quotient(
            a.as_nat(),
            b.as_nat(),
            d.as_nat(),
            round_up,
        ) < 0x10000000000000000000000000000000000000000000000000000000000000000nat),
        r matches Some(v) ==> v.as_nat() == muldiv_quotient(
            a.as_nat(),
            b.as_nat(),
            d.as_nat(),
            round_up,
        ),
{
    if d.is_zero() {
        return None;
    }
    let p = u256_full_mul(a, b);
    let d512 = U512::from_u256(d);
    let (q0, rem) = u512_div_mod(&p, &d512);
    proof {
        lemma_u512_bound(p);
        lemma_div_nonincreasing(p.as_nat() as int, d.as_nat() as int);
        lemma_fundamental_div_mod(p.as_nat() as int, d.as_nat() as int);
    }
    let q = if round_up && !rem.is_zero() {
        proof {
            // The remainder is nonzero, so the divisor is at least two and
            // the floor quotient leaves room for the rounding increment.
            lemma_div_is_ordered_by_denominator(p.as_nat() as int, 2, d.as_nat() as int);
            lemma_fundamental_div_mod(p.as_nat() as int, 2);
        }
        let one = U512 { lo: U256 { w0: 1, w1: 0, w2: 0, w3: 0 }, hi: U256::zero() };
        u512_add(&q0, &one)
    } else {
        q0
    };
    if q.fits_u256() {
        Some(q.to_u256())
    } else {
        None
    }
}

} // verus!
