//! Evolution of a pool price under two continuous counter-flows.
//!
//! Two virtual orders sell token0 and token1 against the pool at fixed rates;
//! over an elapsed interval the price decays exponentially toward the
//! equilibrium implied by the ratio of the two rates. The closed form is
//! `ratio * (e +- c) / (e -+ c)` with `e` an exponential of the elapsed time
//! and `c` the normalized distance from equilibrium, clamped so the price
//! never crosses the equilibrium.
use vstd::prelude::*;

verus! {

use vstd::arithmetic::div_mod::lemma_small_mod;
use vstd::arithmetic::div_mod::lemma_div_of0;
use vstd::arithmetic::div_mod::lemma_multiply_divide_le;
use vstd::arithmetic::mul::lemma_mul_inequality;
use crate::wide::U256;
use crate::wide::u256_add;
use crate::wide::u256_sub;
use crate::wide::u256_mul;
use crate::wide::u256_div;
use crate::wide::u256_shl;
use crate::wide::u256_integer_sqrt;
use crate::wide::lemma_pow2_literals;
use crate::muldiv::muldiv;
use crate::muldiv::muldiv_quotient;
use crate::exp2::exp2;
use crate::exp2::exp2_spec;

/// `r` is the integer square root of `n`.
pub open spec fn is_isqrt(r: nat, n: nat) -> bool {
    r * r <= n && n < (r + 1) * (r + 1)
}

/// The integer square root: the greatest `r` with `r * r <= n`.
pub open spec fn isqrt(n: nat) -> nat {
    choose|r: nat| is_isqrt(r, n)
}

/// Two integer square roots of the same number agree.
proof fn lemma_isqrt_unique(r: nat, s: nat, n: nat)
    requires
        is_isqrt(r, n),
        is_isqrt(s, n),
    ensures
        r == s,
{
    if r < s {
        assert((r + 1) * (r + 1) <= s * s) by (nonlinear_arith)
            requires
                r + 1 <= s,
        ;
    }
    if s < r {
        assert((s + 1) * (s + 1) <= r * r) by (nonlinear_arith)
            requires
                s + 1 <= r,
        ;
    }
}

/// Every number has an integer square root.
proof fn lemma_isqrt_exists(n: nat)
    ensures
        is_isqrt(isqrt(n), n),
    decreases n,
{
    if n == 0 {
        assert(is_isqrt(0, 0)) by (nonlinear_arith);
        assert(exists|r: nat| is_isqrt(r, n));
    } else {
        lemma_isqrt_exists((n - 1) as nat);
        let r = isqrt((n - 1) as nat);
        if n < (r + 1) * (r + 1) {
            assert(is_isqrt(r, n));
        } else {
            // the root steps up exactly at the next perfect square
            assert((r + 1) * (r + 1) < (r + 2) * (r + 2)) by (nonlinear_arith);
            assert(is_isqrt(r + 1, n));
        }
        assert(exists|q: nat| is_isqrt(q, n));
    }
}

/// A witnessed root is the `isqrt`.
proof fn lemma_isqrt_agrees(r: nat, n: nat)
    requires
        is_isqrt(r, n),
    ensures
        isqrt(n) == r,
{
    assert(exists|q: nat| is_isqrt(q, n));
    lemma_isqrt_unique(isqrt(n), r, n);
}

/// The integer square root of a 256-bit number is below `2^128`.
proof fn lemma_isqrt_val_bound(n: nat)
    requires
        n < 0x10000000000000000000000000000000000000000000000000000000000000000nat,
    ensures
        is_isqrt(isqrt(n), n),
        isqrt(n) < 0x100000000000000000000000000000000nat,
{
    lemma_isqrt_exists(n);
    lemma_isqrt_bound(isqrt(n), n);
}

/// An integer square root of a 256-bit number fits in 128 bits.
proof fn lemma_isqrt_bound(r: nat, n: nat)
    requires
        is_isqrt(r, n),
        n < 0x10000000000000000000000000000000000000000000000000000000000000000nat,
    ensures
        r < 0x100000000000000000000000000000000nat,
{
    assert(r < 0x100000000000000000000000000000000nat) by (nonlinear_arith)
        requires
            r * r <= n,
            n < 0x10000000000000000000000000000000000000000000000000000000000000000nat,
    ;
}

/// The equilibrium square-root price implied by the two sale rates:
/// `sqrt(t1 / t0)` in Q128, with the pre-shift picked by magnitude band so
/// the root keeps as many significant bits as possible.
pub open spec fn sqrt_sale_ratio_spec(t0: nat, t1: nat) -> nat {
    let sr = (t1 * 0x100000000000000000000000000000000nat) / t0;
    if sr >= 0x1000000000000000000000000000000000000000000000000nat {
        isqrt(
            (sr * 0x10000)
                % 0x10000000000000000000000000000000000000000000000000000000000000000nat,
        ) * 0x100000000000000
    } else if sr >= 0x100000000000000000000000000000000nat {
        isqrt(sr * 0x10000000000000000) * 0x100000000
    } else {
        isqrt(sr * 0x100000000000000000000000000000000nat)
    }
}

/// The equilibrium price is below `2^184`.
pub proof fn lemma_sqrt_sale_ratio_bound(t0: nat, t1: nat)
    ensures
        sqrt_sale_ratio_spec(t0, t1) < 0x10000000000000000000000000000000000000000000000nat,
{
    let sr = (t1 * 0x100000000000000000000000000000000nat) / t0;
    if sr >= 0x1000000000000000000000000000000000000000000000000nat {
        let n = (sr * 0x10000)
            % 0x10000000000000000000000000000000000000000000000000000000000000000nat;
        lemma_isqrt_val_bound(n);
        assert(isqrt(n) * 0x100000000000000
            < 0x10000000000000000000000000000000000000000000000nat) by (nonlinear_arith)
            requires
                isqrt(n) < 0x100000000000000000000000000000000nat,
        ;
    } else if sr >= 0x100000000000000000000000000000000nat {
        assert(sr * 0x10000000000000000
            < 0x10000000000000000000000000000000000000000000000000000000000000000nat)
            by (nonlinear_arith)
            requires
                sr < 0x1000000000000000000000000000000000000000000000000nat,
        ;
        let n = sr * 0x10000000000000000;
        lemma_isqrt_val_bound(n);
        assert(isqrt(n) * 0x100000000 < 0x10000000000000000000000000000000000000000000000nat)
            by (nonlinear_arith)
            requires
                isqrt(n) < 0x100000000000000000000000000000000nat,
        ;
    } else {
        assert(sr * 0x100000000000000000000000000000000nat
            < 0x10000000000000000000000000000000000000000000000000000000000000000nat)
            by (nonlinear_arith)
            requires
                sr < 0x100000000000000000000000000000000nat,
        ;
        lemma_isqrt_val_bound(sr * 0x100000000000000000000000000000000nat);
    }
}

/// Computes the equilibrium square-root price of the two sale rates.
pub fn compute_sqrt_sale_ratio(sale_rate_token0: u128, sale_rate_token1: u128) -> (r: U256)
    requires
        sale_rate_token0 > 0,
    ensures
        r.as_nat() == sqrt_sale_ratio_spec(sale_rate_token0 as nat, sale_rate_token1 as nat),
{
    proof {
        lemma_pow2_literals();
    }
    let t1w = U256::from_u128(sale_rate_token1);
    proof {
        assert((sale_rate_token1 as nat) * 0x100000000000000000000000000000000nat
            < 0x10000000000000000000000000000000000000000000000000000000000000000nat)
            by (nonlinear_arith)
            requires
                (sale_rate_token1 as nat) < 0x100000000000000000000000000000000nat,
        ;
        lemma_small_mod(
            (sale_rate_token1 as nat) * 0x100000000000000000000000000000000nat,
            0x10000000000000000000000000000000000000000000000000000000000000000nat,
        );
    }
    let num = u256_shl(&t1w, 128);
    let t0w = U256::from_u128(sale_rate_token0);
    let sale_ratio = u256_div(&num, &t0w);
    let ghost sr: nat = sale_ratio.as_nat();
    let band_hi = U256::from_limbs(0, 0, 0, 1);
    let band_mid = U256::from_limbs(0, 0, 1, 0);
    if band_hi.le(&sale_ratio) {
        let shifted = u256_shl(&sale_ratio, 16);
        let root = u256_integer_sqrt(&shifted);
        proof {
            lemma_isqrt_agrees(root.as_nat(), shifted.as_nat());
            lemma_isqrt_bound(root.as_nat(), shifted.as_nat());
            assert(root.as_nat() * 0x100000000000000
                < 0x10000000000000000000000000000000000000000000000000000000000000000nat)
                by (nonlinear_arith)
                requires
                    root.as_nat() < 0x100000000000000000000000000000000nat,
            ;
            lemma_small_mod(
                root.as_nat() * 0x100000000000000,
                0x10000000000000000000000000000000000000000000000000000000000000000nat,
            );
        }
        u256_shl(&root, 56)
    } else if band_mid.le(&sale_ratio) {
        proof {
            assert(sr * 0x10000000000000000
                < 0x10000000000000000000000000000000000000000000000000000000000000000nat)
                by (nonlinear_arith)
                requires
                    sr < 0x1000000000000000000000000000000000000000000000000nat,
            ;
            lemma_small_mod(
                sr * 0x10000000000000000,
                0x10000000000000000000000000000000000000000000000000000000000000000nat,
            );
        }
        let shifted = u256_shl(&sale_ratio, 64);
        let root = u256_integer_sqrt(&shifted);
        proof {
            lemma_isqrt_agrees(root.as_nat(), shifted.as_nat());
            lemma_isqrt_bound(root.as_nat(), shifted.as_nat());
            assert(root.as_nat() * 0x100000000
                < 0x10000000000000000000000000000000000000000000000000000000000000000nat)
                by (nonlinear_arith)
                requires
                    root.as_nat() < 0x100000000000000000000000000000000nat,
            ;
            lemma_small_mod(
                root.as_nat() * 0x100000000,
                0x10000000000000000000000000000000000000000000000000000000000000000nat,
            );
        }
        u256_shl(&root, 32)
    } else {
        proof {
            assert(sr * 0x100000000000000000000000000000000nat
                < 0x10000000000000000000000000000000000000000000000000000000000000000nat)
                by (nonlinear_arith)
                requires
                    sr < 0x100000000000000000000000000000000nat,
            ;
            lemma_small_mod(
                sr * 0x100000000000000000000000000000000nat,
                0x10000000000000000000000000000000000000000000000000000000000000000nat,
            );
        }
        let shifted = u256_shl(&sale_ratio, 128);
        let root = u256_integer_sqrt(&shifted);
        proof {
            lemma_isqrt_agrees(root.as_nat(), shifted.as_nat());
        }
        root
    }
}

/// The magnitude of the normalized distance between the two prices:
/// `|a - b| * 2^128 / (a + b)`.
pub open spec fn c_magnitude(a: nat, b: nat) -> nat {
    if b >= a {
        ((b - a) as nat * 0x100000000000000000000000000000000nat) / (a + b)
    } else {
        ((a - b) as nat * 0x100000000000000000000000000000000nat) / (a + b)
    }
}

/// The distance never exceeds one, in Q128.
pub proof fn lemma_c_magnitude_le(a: nat, b: nat)
    requires
        a + b > 0,
    ensures
        c_magnitude(a, b) <= 0x100000000000000000000000000000000nat,
{
    let d = if b >= a {
        (b - a) as nat
    } else {
        (a - b) as nat
    };
    lemma_mul_inequality(
        d as int,
        (a + b) as int,
        0x100000000000000000000000000000000nat as int,
    );
    lemma_multiply_divide_le(
        (d * 0x100000000000000000000000000000000nat) as int,
        (a + b) as int,
        0x100000000000000000000000000000000nat as int,
    );
}

/// Computes the normalized distance of a price from the equilibrium:
/// `|sqrt_ratio - sqrt_sale_ratio| * 2^128 / (sqrt_ratio + sqrt_sale_ratio)`
/// rounded toward zero, with a flag set when the price sits below the
/// equilibrium.
pub fn compute_c(sqrt_sale_ratio: U256, sqrt_ratio: U256) -> (r: (U256, bool))
    requires
        sqrt_sale_ratio.as_nat() + sqrt_ratio.as_nat() > 0,
        sqrt_sale_ratio.as_nat() + sqrt_ratio.as_nat()
            < 0x10000000000000000000000000000000000000000000000000000000000000000nat,
    ensures
        r.0.as_nat() == c_magnitude(sqrt_sale_ratio.as_nat(), sqrt_ratio.as_nat()),
        r.1 == (sqrt_ratio.as_nat() < sqrt_sale_ratio.as_nat()),
{
    proof {
        lemma_c_magnitude_le(sqrt_sale_ratio.as_nat(), sqrt_ratio.as_nat());
    }
    let one_x128 = U256::from_limbs(0, 0, 1, 0);
    let den = u256_add(&sqrt_ratio, &sqrt_sale_ratio);
    if sqrt_sale_ratio.le(&sqrt_ratio) {
        let diff = u256_sub(&sqrt_ratio, &sqrt_sale_ratio);
        let c = muldiv(&diff, &one_x128, &den, false);
        (c.unwrap(), false)
    } else {
        let diff = u256_sub(&sqrt_sale_ratio, &sqrt_ratio);
        let c = muldiv(&diff, &one_x128, &den, false);
        (c.unwrap(), true)
    }
}

/// The price after an elapsed interval of the two flows trading against the
/// pool: the closed form `ssr * (e +- c) / (e -+ c)`, degrading to the
/// equilibrium price itself on every internal edge case, and clamped so it
/// never crosses the equilibrium.
pub open spec fn next_sqrt_ratio_spec(
    sqrt_ratio: nat,
    liquidity: nat,
    t0: nat,
    t1: nat,
    time_elapsed: nat,
    fee: nat,
) -> nat {
    let ssr = sqrt_sale_ratio_spec(t0, t1);
    if liquidity == 0 {
        ssr
    } else {
        let c = c_magnitude(ssr, sqrt_ratio);
        let neg = sqrt_ratio < ssr;
        if c == 0 {
            ssr
        } else {
            let sale_rate = (isqrt(t1 * t0) * ((0x10000000000000000 - fee) as nat))
                / 0x10000000000000000;
            let round_up = sqrt_ratio > ssr;
            let exponent = (sale_rate * time_elapsed * 12392656037) / liquidity;
            if exponent >= 0x400000000000000000 {
                ssr
            } else {
                let e = exp2_spec(exponent as int) * 0x10000000000000000;
                let diff = if e >= c {
                    (e - c) as nat
                } else {
                    (c - e) as nat
                };
                let num = if neg {
                    diff
                } else {
                    e + c
                };
                let den = if neg {
                    e + c
                } else {
                    diff
                };
                let raw = if den > 0 && muldiv_quotient(ssr, num, den, round_up)
                    < 0x10000000000000000000000000000000000000000000000000000000000000000nat {
                    muldiv_quotient(ssr, num, den, round_up)
                } else {
                    ssr
                };
                if round_up {
                    if raw >= ssr {
                        raw
                    } else {
                        ssr
                    }
                } else {
                    if raw <= ssr {
                        raw
                    } else {
                        ssr
                    }
                }
            }
        }
    }
}

/// With no liquidity the price jumps directly to the equilibrium.
pub proof fn lemma_next_ratio_zero_liquidity(
    sqrt_ratio: nat,
    t0: nat,
    t1: nat,
    time_elapsed: nat,
    fee: nat,
)
    ensures
        next_sqrt_ratio_spec(sqrt_ratio, 0, t0, t1, time_elapsed, fee) == sqrt_sale_ratio_spec(
            t0,
            t1,
        ),
{
}

/// A price already at the equilibrium stays there.
pub proof fn lemma_next_ratio_at_equilibrium(
    liquidity: nat,
    t0: nat,
    t1: nat,
    time_elapsed: nat,
    fee: nat,
)
    requires
        sqrt_sale_ratio_spec(t0, t1) > 0,
    ensures
        next_sqrt_ratio_spec(
            sqrt_sale_ratio_spec(t0, t1),
            liquidity,
            t0,
            t1,
            time_elapsed,
            fee,
        ) == sqrt_sale_ratio_spec(t0, t1),
{
    let ssr = sqrt_sale_ratio_spec(t0, t1);
    assert(((ssr - ssr) as nat) * 0x100000000000000000000000000000000nat == 0)
        by (nonlinear_arith);
    lemma_div_of0((ssr + ssr) as int);
    assert(c_magnitude(ssr, ssr) == 0);
}

/// The result never lies strictly beyond the equilibrium in the direction
/// the price moves: falling prices stop at it from above, rising prices
/// from below.
pub proof fn lemma_next_ratio_clamped(
    sqrt_ratio: nat,
    liquidity: nat,
    t0: nat,
    t1: nat,
    time_elapsed: nat,
    fee: nat,
)
    ensures
        sqrt_ratio > sqrt_sale_ratio_spec(t0, t1) ==> next_sqrt_ratio_spec(
            sqrt_ratio,
            liquidity,
            t0,
            t1,
            time_elapsed,
            fee,
        ) >= sqrt_sale_ratio_spec(t0, t1),
        sqrt_ratio < sqrt_sale_ratio_spec(t0, t1) ==> next_sqrt_ratio_spec(
            sqrt_ratio,
            liquidity,
            t0,
            t1,
            time_elapsed,
            fee,
        ) <= sqrt_sale_ratio_spec(t0, t1),
{
}

/// Advances the pool price across `time_elapsed` seconds of the two sale
/// flows trading against `liquidity`, toward their equilibrium price.
pub fn calculate_next_sqrt_ratio(
    sqrt_ratio: U256,
    liquidity: u128,
    sale_rate_token0: u128,
    sale_rate_token1: u128,
    time_elapsed: u32,
    fee: u64,
) -> (r: U256)
    requires
        sale_rate_token0 > 0,
        liquidity != 0 ==> sqrt_ratio.as_nat() + sqrt_sale_ratio_spec(
            sale_rate_token0 as nat,
            sale_rate_token1 as nat,
        ) > 0,
        liquidity != 0 ==> sqrt_ratio.as_nat() + sqrt_sale_ratio_spec(
            sale_rate_token0 as nat,
            sale_rate_token1 as nat,
        ) < 0x10000000000000000000000000000000000000000000000000000000000000000nat,
    ensures
        r.as_nat() == next_sqrt_ratio_spec(
            sqrt_ratio.as_nat(),
            liquidity as nat,
            sale_rate_token0 as nat,
            sale_rate_token1 as nat,
            time_elapsed as nat,
            fee as nat,
        ),
{
    proof {
        lemma_pow2_literals();
    }
    let ssr = compute_sqrt_sale_ratio(sale_rate_token0, sale_rate_token1);
    if liquidity == 0 {
        return ssr;
    }
    let cpair = compute_c(ssr, sqrt_ratio);
    let c = cpair.0;
    let negative = cpair.1;
    proof {
        lemma_c_magnitude_le(ssr.as_nat(), sqrt_ratio.as_nat());
    }
    if c.is_zero() {
        return ssr;
    }
    proof {
        assert((sale_rate_token1 as nat) * (sale_rate_token0 as nat)
            < 0x10000000000000000000000000000000000000000000000000000000000000000nat)
            by (nonlinear_arith)
            requires
                (sale_rate_token1 as nat) < 0x100000000000000000000000000000000nat,
                (sale_rate_token0 as nat) < 0x100000000000000000000000000000000nat,
        ;
    }
    let prod = u256_mul(&U256::from_u128(sale_rate_token1), &U256::from_u128(sale_rate_token0));
    let root = u256_integer_sqrt(&prod);
    proof {
        lemma_isqrt_agrees(root.as_nat(), prod.as_nat());
        lemma_isqrt_bound(root.as_nat(), prod.as_nat());
    }
    let two64 = U256::from_limbs(0, 1, 0, 0);
    let fee_factor = u256_sub(&two64, &U256::from_u64(fee));
    proof {
        assert(root.as_nat() * fee_factor.as_nat()
            <= 0x1000000000000000000000000000000000000000000000000nat) by (nonlinear_arith)
            requires
                root.as_nat() < 0x100000000000000000000000000000000nat,
                fee_factor.as_nat() <= 0x10000000000000000,
        ;
        assert(0x10000000000000000nat * 0x100000000000000000000000000000000nat
            == 0x1000000000000000000000000000000000000000000000000nat) by (nonlinear_arith);
    }
    let sr_num = u256_mul(&root, &fee_factor);
    let sale_rate = u256_div(&sr_num, &two64);
    proof {
        lemma_multiply_divide_le(
            sr_num.as_nat() as int,
            0x10000000000000000,
            0x100000000000000000000000000000000nat as int,
        );
    }
    proof {
        assert(sale_rate.as_nat() * (time_elapsed as nat)
            <= 0x1000000000000000000000000000000000000000000000000nat) by (nonlinear_arith)
            requires
                sale_rate.as_nat() <= 0x100000000000000000000000000000000nat,
                (time_elapsed as nat) <= 0xffffffff,
        ;
    }
    let te = u256_mul(&sale_rate, &U256::from_u128(time_elapsed as u128));
    proof {
        assert(te.as_nat() * 12392656037
            < 0x10000000000000000000000000000000000000000000000000000000000000000nat)
            by (nonlinear_arith)
            requires
                te.as_nat() <= 0x1000000000000000000000000000000000000000000000000nat,
        ;
    }
    let kconst = U256::from_limbs(12392656037, 0, 0, 0);
    let en = u256_mul(&te, &kconst);
    let exponent = u256_div(&en, &U256::from_u128(liquidity));
    let threshold = U256::from_u128(0x400000000000000000);
    if !exponent.lt(&threshold) {
        return ssr;
    }
    let xv: u128 = exponent.low_u128();
    let e128 = exp2(xv as i128);
    proof {
        assert((e128 as nat) * 0x10000000000000000
            < 0x10000000000000000000000000000000000000000000000000000000000000000nat)
            by (nonlinear_arith)
            requires
                (e128 as nat) < 0x100000000000000000000000000000000nat,
        ;
        lemma_small_mod(
            (e128 as nat) * 0x10000000000000000,
            0x10000000000000000000000000000000000000000000000000000000000000000nat,
        );
    }
    let e = u256_shl(&U256::from_u128(e128), 64);
    proof {
        assert((e128 as nat) * 0x10000000000000000
            <= 0xffffffffffffffffffffffffffffffffnat * 0x10000000000000000) by (nonlinear_arith)
            requires
                (e128 as nat) <= 0xffffffffffffffffffffffffffffffffnat,
        ;
        assert(0xffffffffffffffffffffffffffffffffnat * 0x10000000000000000
            < 0x1000000000000000000000000000000000000000000000000nat) by (nonlinear_arith);
    }
    let round_up = ssr.lt(&sqrt_ratio);
    let ec_sum = u256_add(&e, &c);
    let diff = if c.le(&e) {
        u256_sub(&e, &c)
    } else {
        u256_sub(&c, &e)
    };
    let result = if negative {
        muldiv(&ssr, &diff, &ec_sum, round_up)
    } else {
        muldiv(&ssr, &ec_sum, &diff, round_up)
    };
    let raw = match result {
        Some(v) => v,
        None => ssr,
    };
    if round_up {
        if ssr.le(&raw) {
            raw
        } else {
            ssr
        }
    } else {
        if raw.le(&ssr) {
            raw
        } else {
            ssr
        }
    }
}

} // verus!
