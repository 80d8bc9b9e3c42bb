//! A price-only full-range pool and the oracle pool layered on top of it.
//!
//! The full-range pool holds a single liquidity position spanning the whole
//! tick range and quotes swaps against it in closed form. The oracle pool
//! wraps it with a last-snapshot timestamp, counting a snapshot write
//! whenever a quote is evaluated at a new block time.
use vstd::prelude::*;

verus! {

use crate::wide::U256;
use crate::wide::U512;
use crate::wide::u256_add;
use crate::wide::u256_sub;
use crate::wide::u256_shl;
use crate::wide::u256_full_mul;
use crate::wide::u512_add;
use crate::wide::u512_div_mod;
use crate::muldiv::muldiv;
use crate::tick::min_sqrt_ratio;
use crate::tick::max_sqrt_ratio;
use crate::tick::min_sqrt_ratio_spec;
use crate::tick::max_sqrt_ratio_spec;
use crate::tick::FULL_RANGE_TICK_SPACING;

/// The wall-clock coordinate a quote is evaluated at.
pub type BlockTimestamp = u64;

/// The address of the chain's native token, token0 of every oracle pool.
pub fn native_token_address() -> (r: U256)
    ensures
        r.as_nat() == 0,
        r == (U256 { w0: 0, w1: 0, w2: 0, w3: 0 }),
{
    U256::zero()
}

/// Immutable pool parameters.
#[derive(Clone, Copy, Debug)]
pub struct Config {
    /// Swap fee as a fraction of `2^64`.
    pub fee: u64,
    /// Spacing of initialized ticks; zero means a single full-range position.
    pub tick_spacing: u32,
    /// Address of the extension contract governing the pool.
    pub extension: U256,
}

/// Identity of a pool: its token pair and configuration.
#[derive(Clone, Copy, Debug)]
pub struct NodeKey {
    pub token0: U256,
    pub token1: U256,
    pub config: Config,
}

/// A signed amount of a specific token.
#[derive(Clone, Copy, Debug)]
pub struct TokenAmount {
    pub amount: i128,
    pub token: U256,
}

/// Inputs of a quote: the amount swapped in, an optional price limit, an
/// optional state override, and protocol metadata.
#[derive(Clone, Copy, Debug)]
pub struct QuoteParams<S, M> {
    pub token_amount: TokenAmount,
    pub sqrt_ratio_limit: Option<U256>,
    pub override_state: Option<S>,
    pub meta: M,
}

/// Outcome of a quote.
#[derive(Clone, Copy, Debug)]
pub struct Quote<R, S> {
    pub calculated_amount: i128,
    pub consumed_amount: i128,
    pub execution_resources: R,
    pub fees_paid: u128,
    pub is_price_increasing: bool,
    pub state_after: S,
}

/// Mutable state of a full-range pool: its price and liquidity.
#[derive(Clone, Copy, Debug)]
pub struct FullRangePoolState {
    pub sqrt_ratio: U256,
    pub liquidity: u128,
}

/// Work done by a full-range quote.
#[derive(Clone, Copy, Debug, PartialEq, Eq, Structural)]
pub struct FullRangePoolResources {
    /// Number of price movements applied.
    pub price_changes: u32,
}

impl Default for FullRangePoolResources {
    /// No work done.
    fn default() -> (r: FullRangePoolResources)
        ensures
            r.price_changes == 0,
    {
        FullRangePoolResources { price_changes: 0 }
    }
}

impl FullRangePoolResources {
    pub fn zero() -> (r: FullRangePoolResources)
        ensures
            r.price_changes == 0,
    {
        FullRangePoolResources { price_changes: 0 }
    }

    /// Component-wise sum.
    pub fn add(self, rhs: FullRangePoolResources) -> (r: FullRangePoolResources)
        requires
            self.price_changes + rhs.price_changes <= u32::MAX,
        ensures
            r.price_changes == self.price_changes + rhs.price_changes,
    {
        FullRangePoolResources { price_changes: self.price_changes + rhs.price_changes }
    }

    /// Component-wise difference.
    pub fn sub(self, rhs: FullRangePoolResources) -> (r: FullRangePoolResources)
        requires
            rhs.price_changes <= self.price_changes,
        ensures
            r.price_changes == self.price_changes - rhs.price_changes,
    {
        FullRangePoolResources { price_changes: self.price_changes - rhs.price_changes }
    }
}

/// Why a full-range pool cannot be built.
#[derive(Clone, Copy, Debug, PartialEq, Eq, Structural)]
pub enum FullRangePoolError {
    /// The starting price lies outside the valid range.
    SqrtRatioOutOfBounds,
    /// The configuration does not describe a fee-free full-range pool.
    UnsupportedConfig,
}

/// Why a full-range quote fails.
#[derive(Clone, Copy, Debug, PartialEq, Eq, Structural)]
pub enum FullRangePoolQuoteError {
    /// The swapped token is neither token of the pool.
    InvalidToken,
    /// The price limit is out of range or on the wrong side of the price.
    InvalidSqrtRatioLimit,
    /// The calculated output does not fit the amount type.
    CalculatedAmountOverflow,
}

/// The override state when one is given, the pool's own state otherwise.
pub open spec fn or_state(o: Option<FullRangePoolState>, d: FullRangePoolState) -> FullRangePoolState {
    match o {
        Some(s) => s,
        None => d,
    }
}

/// Whether a requested price limit is in range and on the side the price
/// will move toward.
pub open spec fn limit_valid(sqrtp: nat, lim: Option<U256>, is_token1: bool) -> bool {
    match lim {
        None => true,
        Some(v) => min_sqrt_ratio_spec() <= v.as_nat() <= max_sqrt_ratio_spec() && (if is_token1 {
            v.as_nat() >= sqrtp
        } else {
            v.as_nat() <= sqrtp
        }),
    }
}

/// The effective price limit: the requested one, or the end of the range in
/// the direction of motion.
pub open spec fn limit_of(lim: Option<U256>, is_token1: bool) -> nat {
    match lim {
        None => if is_token1 {
            max_sqrt_ratio_spec()
        } else {
            min_sqrt_ratio_spec()
        },
        Some(v) => v.as_nat(),
    }
}

/// Token0 put out as the price rises from `pa` to `pb` against `l`:
/// `l * 2^128 * (pb - pa) / (pa * pb)`, rounded down.
pub open spec fn amount0_delta(l: nat, pa: nat, pb: nat) -> nat {
    (l * 0x100000000000000000000000000000000nat * ((pb - pa) as nat)) / (pa * pb)
}

/// Token1 put out as the price falls from `pb` to `pa` against `l`:
/// `l * (pb - pa) / 2^128`, rounded down.
pub open spec fn amount1_delta(l: nat, pa: nat, pb: nat) -> nat {
    (l * ((pb - pa) as nat)) / 0x100000000000000000000000000000000nat
}

/// Token1 needed to push the price from `pa` up to `pb`, rounded up.
pub open spec fn amount1_in_for(l: nat, pa: nat, pb: nat) -> nat {
    crate::muldiv::div_up(l * ((pb - pa) as nat), 0x100000000000000000000000000000000nat)
}

/// Token0 needed to pull the price from `pb` down to `pa`, rounded up.
pub open spec fn amount0_in_for(l: nat, pa: nat, pb: nat) -> nat {
    crate::muldiv::div_up(l * 0x100000000000000000000000000000000nat * ((pb - pa) as nat), pa * pb)
}

/// One upward price step: the new price, the input consumed, the output
/// calculated, and whether the limit cut the step short.
pub open spec fn step_up(sqrtp: nat, l: nat, amount: nat, limit: nat) -> (nat, nat, nat, bool) {
    let delta = (amount * 0x100000000000000000000000000000000nat) / l;
    if sqrtp + delta > limit {
        let used = amount1_in_for(l, sqrtp, limit);
        (limit, if used < amount { used } else { amount }, amount0_delta(l, sqrtp, limit), true)
    } else {
        (sqrtp + delta, amount, amount0_delta(l, sqrtp, sqrtp + delta), false)
    }
}

/// One downward price step, mirroring `step_up`.
pub open spec fn step_down(sqrtp: nat, l: nat, amount: nat, limit: nat) -> (nat, nat, nat, bool) {
    let nxt = crate::muldiv::div_up(
        l * 0x100000000000000000000000000000000nat * sqrtp,
        l * 0x100000000000000000000000000000000nat + amount * sqrtp,
    );
    if nxt < limit {
        let used = amount0_in_for(l, limit, sqrtp);
        (limit, if used < amount { used } else { amount }, amount1_delta(l, limit, sqrtp), true)
    } else {
        (nxt, amount, amount1_delta(l, nxt, sqrtp), false)
    }
}

/// The numbers a quote reports: next price, consumed input, calculated
/// output.
pub open spec fn quote_calc(st: FullRangePoolState, amount: nat, is_token1: bool, limit: nat) -> (
    nat,
    nat,
    nat,
) {
    let sqrtp = st.sqrt_ratio.as_nat();
    let l = st.liquidity as nat;
    if l == 0 || amount == 0 {
        (sqrtp, 0, 0)
    } else {
        let s = if is_token1 {
            step_up(sqrtp, l, amount, limit)
        } else {
            step_down(sqrtp, l, amount, limit)
        };
        (s.0, s.1, s.2)
    }
}

/// A pool state is well formed when its price lies in the valid range.
pub open spec fn state_wf(s: FullRangePoolState) -> bool {
    min_sqrt_ratio_spec() <= s.sqrt_ratio.as_nat() <= max_sqrt_ratio_spec()
}

/// A pool with one liquidity position spanning the whole tick range.
#[derive(Clone, Copy, Debug)]
pub struct FullRangePool {
    pub key: NodeKey,
    pub state: FullRangePoolState,
}

impl FullRangePool {
    /// The pool's invariant: a full-range configuration and an in-range price.
    pub open spec fn wf(self) -> bool {
        &&& state_wf(self.state)
        &&& self.key.config.tick_spacing == FULL_RANGE_TICK_SPACING
        &&& self.key.config.fee == 0
    }

    /// Builds a pool, rejecting a non-full-range configuration and an
    /// out-of-range starting price.
    pub fn new(key: NodeKey, state: FullRangePoolState) -> (r: Result<
        FullRangePool,
        FullRangePoolError,
    >)
        ensures
            (r is Ok) <==> (key.config.tick_spacing == FULL_RANGE_TICK_SPACING
                && key.config.fee == 0 && state_wf(state)),
            r matches Ok(p) ==> p == (FullRangePool { key, state }) && p.wf(),
            r matches Err(e) ==> e == (if key.config.tick_spacing != FULL_RANGE_TICK_SPACING
                || key.config.fee != 0 {
                FullRangePoolError::UnsupportedConfig
            } else {
                FullRangePoolError::SqrtRatioOutOfBounds
            }),
    {
        if key.config.tick_spacing != FULL_RANGE_TICK_SPACING || key.config.fee != 0 {
            return Err(FullRangePoolError::UnsupportedConfig);
        }
        let lo = min_sqrt_ratio();
        let hi = max_sqrt_ratio();
        if !(lo.le(&state.sqrt_ratio) && state.sqrt_ratio.le(&hi)) {
            return Err(FullRangePoolError::SqrtRatioOutOfBounds);
        }
        Ok(FullRangePool { key, state })
    }

    /// The pool's identity.
    pub fn get_key(&self) -> (r: &NodeKey)
        ensures
            r == self.key,
    {
        &self.key
    }

    /// The pool's current state.
    pub fn get_state(&self) -> (r: FullRangePoolState)
        ensures
            r == self.state,
    {
        self.state
    }

    /// Whether any liquidity is present.
    pub fn has_liquidity(&self) -> (r: bool)
        ensures
            r == (self.state.liquidity != 0),
    {
        self.state.liquidity != 0
    }

    /// The highest tick at which the pool holds liquidity.
    pub fn max_tick_with_liquidity(&self) -> (r: Option<i32>)
        ensures
            r == (if self.state.liquidity != 0 {
                Some(crate::tick::MAX_TICK)
            } else {
                Option::<i32>::None
            }),
    {
        if self.state.liquidity != 0 {
            Some(crate::tick::MAX_TICK)
        } else {
            None
        }
    }

    /// The lowest tick at which the pool holds liquidity.
    pub fn min_tick_with_liquidity(&self) -> (r: Option<i32>)
        ensures
            r == (if self.state.liquidity != 0 {
                Some(crate::tick::MIN_TICK)
            } else {
                Option::<i32>::None
            }),
    {
        if self.state.liquidity != 0 {
            Some(crate::tick::MIN_TICK)
        } else {
            None
        }
    }

    /// Quotes an exact-input swap against the pool's single position. The
    /// price moves from the current ratio toward the limit; the input beyond
    /// what the limit absorbs is left unconsumed.
    pub fn quote(&self, params: QuoteParams<FullRangePoolState, ()>) -> (r: Result<
        Quote<FullRangePoolResources, FullRangePoolState>,
        FullRangePoolQuoteError,
    >)
        requires
            self.wf(),
            params.token_amount.amount >= 0,
            params.override_state matches Some(s) ==> state_wf(s),
        ensures
            ({
                let st = or_state(params.override_state, self.state);
                let is_token1 = params.token_amount.token == self.key.token1;
                let valid_token = params.token_amount.token == self.key.token0
                    || params.token_amount.token == self.key.token1;
                let lim_ok = limit_valid(st.sqrt_ratio.as_nat(), params.sqrt_ratio_limit, is_token1);
                let out = quote_calc(
                    st,
                    params.token_amount.amount as nat,
                    is_token1,
                    limit_of(params.sqrt_ratio_limit, is_token1),
                );
                &&& (r is Ok) <==> (valid_token && lim_ok && out.2
                    < 0x80000000000000000000000000000000nat)
                &&& (r matches Ok(q) ==> {
                    &&& q.calculated_amount == out.2
                    &&& q.consumed_amount == out.1
                    &&& q.fees_paid == 0
                    &&& q.is_price_increasing == is_token1
                    &&& q.state_after.sqrt_ratio.as_nat() == out.0
                    &&& q.state_after.liquidity == st.liquidity
                    &&& state_wf(q.state_after)
                    &&& q.execution_resources.price_changes == (if out.0 != st.sqrt_ratio.as_nat() {
                        1u32
                    } else {
                        0u32
                    })
                })
                &&& (r matches Err(e) ==> e == (if !valid_token {
                    FullRangePoolQuoteError::InvalidToken
                } else if !lim_ok {
                    FullRangePoolQuoteError::InvalidSqrtRatioLimit
                } else {
                    FullRangePoolQuoteError::CalculatedAmountOverflow
                }))
            }),
    {
        let st = match params.override_state {
            Some(s) => s,
            None => self.state,
        };
        let is_token1 = params.token_amount.token == self.key.token1;
        if !(params.token_amount.token == self.key.token0 || is_token1) {
            return Err(FullRangePoolQuoteError::InvalidToken);
        }
        let lo = min_sqrt_ratio();
        let hi = max_sqrt_ratio();
        let limitv: U256 = match params.sqrt_ratio_limit {
            Some(v) => {
                if !(lo.le(&v) && v.le(&hi)) {
                    return Err(FullRangePoolQuoteError::InvalidSqrtRatioLimit);
                }
                if is_token1 {
                    if v.lt(&st.sqrt_ratio) {
                        return Err(FullRangePoolQuoteError::InvalidSqrtRatioLimit);
                    }
                } else {
                    if st.sqrt_ratio.lt(&v) {
                        return Err(FullRangePoolQuoteError::InvalidSqrtRatioLimit);
                    }
                }
                v
            },
            None => if is_token1 {
                hi
            } else {
                lo
            },
        };
        let amt: u128 = params.token_amount.amount as u128;
        if st.liquidity == 0 || amt == 0 {
            return Ok(Quote {
                calculated_amount: 0,
                consumed_amount: 0,
                execution_resources: FullRangePoolResources { price_changes: 0 },
                fees_paid: 0,
                is_price_increasing: is_token1,
                state_after: st,
            });
        }
        let (next, consumed): (U256, U256) = if is_token1 {
            let up = step_up_exec(st.sqrt_ratio, st.liquidity, amt, limitv);
            (up.0, up.1)
        } else {
            let down = step_down_exec(st.sqrt_ratio, st.liquidity, amt, limitv);
            (down.0, down.1)
        };
        let calc: U256 = if is_token1 {
            amount0_out_exec(st.liquidity, st.sqrt_ratio, next)
        } else {
            amount1_out_exec(st.liquidity, next, st.sqrt_ratio)
        };
        let i128_max = U256::from_limbs(0xffffffffffffffff, 0x7fffffffffffffff, 0, 0);
        if i128_max.lt(&calc) {
            return Err(FullRangePoolQuoteError::CalculatedAmountOverflow);
        }
        let calc_i: i128 = calc.low_u128() as i128;
        let consumed_i: i128 = consumed.low_u128() as i128;
        let changed: bool = !(next == st.sqrt_ratio);
        proof {
            lemma_as_nat_eq(next, st.sqrt_ratio);
        }
        Ok(Quote {
            calculated_amount: calc_i,
            consumed_amount: consumed_i,
            execution_resources: FullRangePoolResources {
                price_changes: if changed {
                    1
                } else {
                    0
                },
            },
            fees_paid: 0,
            is_price_increasing: is_token1,
            state_after: FullRangePoolState { sqrt_ratio: next, liquidity: st.liquidity },
        })
    }
}

/// Moves the price up under a token1 input, stopping at the limit.
fn step_up_exec(sqrt_ratio: U256, liquidity: u128, amt: u128, limitv: U256) -> (r: (U256, U256))
    requires
        liquidity >= 1,
        amt >= 1,
        sqrt_ratio.as_nat() <= limitv.as_nat(),
    ensures
        r.0.as_nat() == step_up(
            sqrt_ratio.as_nat(),
            liquidity as nat,
            amt as nat,
            limitv.as_nat(),
        ).0,
        r.1.as_nat() == step_up(
            sqrt_ratio.as_nat(),
            liquidity as nat,
            amt as nat,
            limitv.as_nat(),
        ).1,
        sqrt_ratio.as_nat() <= r.0.as_nat() <= limitv.as_nat(),
{
    proof {
        crate::wide::lemma_pow2_literals();
    }
    let lw = U256::from_u128(liquidity);
    let amt_w = U256::from_u128(amt);
    let one_x128 = U256::from_limbs(0, 0, 1, 0);
    let room = u256_sub(&limitv, &sqrt_ratio);
    proof {
        vstd::arithmetic::div_mod::lemma_div_nonincreasing(
            ((amt as nat) * 0x100000000000000000000000000000000nat) as int,
            liquidity as int,
        );
        assert((amt as nat) * 0x100000000000000000000000000000000nat
            < 0x10000000000000000000000000000000000000000000000000000000000000000nat)
            by (nonlinear_arith)
            requires
                (amt as nat) < 0x100000000000000000000000000000000nat,
        ;
    }
    let delta = muldiv(&amt_w, &one_x128, &lw, false).unwrap();
    if room.lt(&delta) {
        proof {
            crate::wide::lemma_u256_bound(room);
            lemma_muldiv_up_fits(liquidity as nat, room.as_nat());
        }
        let used = muldiv(&lw, &room, &one_x128, true).unwrap();
        let consumed = if used.lt(&amt_w) {
            used
        } else {
            amt_w
        };
        (limitv, consumed)
    } else {
        (u256_add(&sqrt_ratio, &delta), amt_w)
    }
}

/// The price a token0 input would push the pool to, the limit aside:
/// `div_up(l * 2^128 * p, l * 2^128 + amt * p)`.
fn step_down_target(sqrt_ratio: U256, liquidity: u128, amt: u128) -> (r: U256)
    requires
        liquidity >= 1,
    ensures
        r.as_nat() == crate::muldiv::div_up(
            (liquidity as nat) * 0x100000000000000000000000000000000nat * sqrt_ratio.as_nat(),
            (liquidity as nat) * 0x100000000000000000000000000000000nat + (amt as nat)
                * sqrt_ratio.as_nat(),
        ),
        r.as_nat() <= sqrt_ratio.as_nat(),
{
    proof {
        crate::wide::lemma_pow2_literals();
    }
    let ghost sqrtp: nat = sqrt_ratio.as_nat();
    let ghost lnat: nat = liquidity as nat;
    let lw = U256::from_u128(liquidity);
    let amt_w = U256::from_u128(amt);
    proof {
        assert(lnat * 0x100000000000000000000000000000000nat
            < 0x10000000000000000000000000000000000000000000000000000000000000000nat)
            by (nonlinear_arith)
            requires
                lnat < 0x100000000000000000000000000000000nat,
        ;
        vstd::arithmetic::div_mod::lemma_small_mod(
            lnat * 0x100000000000000000000000000000000nat,
            0x10000000000000000000000000000000000000000000000000000000000000000nat,
        );
        assert(lnat * 0x100000000000000000000000000000000nat
            >= 0x100000000000000000000000000000000nat) by (nonlinear_arith)
            requires
                lnat >= 1,
        ;
    }
    let lshift = u256_shl(&lw, 128);
    let np_num = u256_full_mul(&lshift, &sqrt_ratio);
    let fee_term = u256_full_mul(&amt_w, &sqrt_ratio);
    proof {
        crate::wide::lemma_u256_bound(sqrt_ratio);
        crate::wide::lemma_u256_bound(lshift);
        assert((amt as nat) * sqrtp <= 0x100000000000000000000000000000000nat
            * 0x10000000000000000000000000000000000000000000000000000000000000000nat)
            by (nonlinear_arith)
            requires
                (amt as nat) <= 0x100000000000000000000000000000000nat,
                sqrtp <= 0x10000000000000000000000000000000000000000000000000000000000000000nat,
        ;
        assert(0x100000000000000000000000000000000nat
            * 0x10000000000000000000000000000000000000000000000000000000000000000nat
            == 0x1000000000000000000000000000000000000000000000000000000000000000000000000000000000000000000000000nat)
            by (nonlinear_arith);
    }
    let np_den = u512_add(&U512::from_u256(&lshift), &fee_term);
    let qpair = u512_div_mod(&np_num, &np_den);
    proof {
        lemma_down_quotient_le(
            lshift.as_nat(),
            np_den.as_nat(),
            sqrtp,
            qpair.0.as_nat(),
            qpair.1.as_nat(),
        );
    }
    let nxt512 = if qpair.1.is_zero() {
        qpair.0
    } else {
        u512_add(&qpair.0, &U512::from_u256(&U256::from_u64(1)))
    };
    nxt512.to_u256()
}

/// The token0 needed to pull the price down to the limit, capped at the
/// available input.
fn down_consumed_exec(sqrt_ratio: U256, liquidity: u128, amt: u128, limitv: U256) -> (r: U256)
    requires
        liquidity >= 1,
        limitv.as_nat() <= sqrt_ratio.as_nat(),
        limitv.as_nat() >= 0x10000000000000000,
    ensures
        r.as_nat() == ({
            let used = amount0_in_for(
                liquidity as nat,
                limitv.as_nat(),
                sqrt_ratio.as_nat(),
            );
            if used < amt {
                used
            } else {
                amt as nat
            }
        }),
{
    proof {
        crate::wide::lemma_pow2_literals();
    }
    let ghost sqrtp: nat = sqrt_ratio.as_nat();
    let ghost lnat: nat = liquidity as nat;
    let lw = U256::from_u128(liquidity);
    let amt_w = U256::from_u128(amt);
    proof {
        assert(lnat * 0x100000000000000000000000000000000nat
            < 0x10000000000000000000000000000000000000000000000000000000000000000nat)
            by (nonlinear_arith)
            requires
                lnat < 0x100000000000000000000000000000000nat,
        ;
        vstd::arithmetic::div_mod::lemma_small_mod(
            lnat * 0x100000000000000000000000000000000nat,
            0x10000000000000000000000000000000000000000000000000000000000000000nat,
        );
    }
    let lshift = u256_shl(&lw, 128);
    let diffc = u256_sub(&sqrt_ratio, &limitv);
    let cn_num = u256_full_mul(&lshift, &diffc);
    let cn_den = u256_full_mul(&limitv, &sqrt_ratio);
    proof {
        assert(limitv.as_nat() * sqrtp >= 1) by (nonlinear_arith)
            requires
                limitv.as_nat() >= 1,
                sqrtp >= 1,
        ;
    }
    let cpair = u512_div_mod(&cn_num, &cn_den);
    proof {
        crate::wide::lemma_u256_bound(lshift);
        lemma_out0_fits(
            lshift.as_nat(),
            limitv.as_nat(),
            sqrtp,
            (sqrtp - limitv.as_nat()) as nat,
            cpair.0.as_nat(),
            cpair.1.as_nat(),
        );
    }
    let cn512 = if cpair.1.is_zero() {
        cpair.0
    } else {
        u512_add(&cpair.0, &U512::from_u256(&U256::from_u64(1)))
    };
    let cn = cn512.to_u256();
    if cn.lt(&amt_w) {
        cn
    } else {
        amt_w
    }
}

/// Moves the price down under a token0 input, stopping at the limit.
fn step_down_exec(sqrt_ratio: U256, liquidity: u128, amt: u128, limitv: U256) -> (r: (U256, U256))
    requires
        liquidity >= 1,
        amt >= 1,
        limitv.as_nat() <= sqrt_ratio.as_nat(),
        limitv.as_nat() >= 0x10000000000000000,
    ensures
        r.0.as_nat() == step_down(
            sqrt_ratio.as_nat(),
            liquidity as nat,
            amt as nat,
            limitv.as_nat(),
        ).0,
        r.1.as_nat() == step_down(
            sqrt_ratio.as_nat(),
            liquidity as nat,
            amt as nat,
            limitv.as_nat(),
        ).1,
        limitv.as_nat() <= r.0.as_nat() <= sqrt_ratio.as_nat(),
{
    let nxt256 = step_down_target(sqrt_ratio, liquidity, amt);
    if nxt256.lt(&limitv) {
        let consumed = down_consumed_exec(sqrt_ratio, liquidity, amt, limitv);
        (limitv, consumed)
    } else {
        (nxt256, U256::from_u128(amt))
    }
}

/// The token0 put out as the price rises from `pa` to `pb`.
fn amount0_out_exec(liquidity: u128, pa: U256, pb: U256) -> (r: U256)
    requires
        liquidity >= 1,
        pa.as_nat() >= 0x10000000000000000,
        pa.as_nat() <= pb.as_nat(),
    ensures
        r.as_nat() == amount0_delta(liquidity as nat, pa.as_nat(), pb.as_nat()),
{
    proof {
        crate::wide::lemma_pow2_literals();
    }
    let ghost lnat: nat = liquidity as nat;
    let lw = U256::from_u128(liquidity);
    proof {
        assert(lnat * 0x100000000000000000000000000000000nat
            < 0x10000000000000000000000000000000000000000000000000000000000000000nat)
            by (nonlinear_arith)
            requires
                lnat < 0x100000000000000000000000000000000nat,
        ;
        vstd::arithmetic::div_mod::lemma_small_mod(
            lnat * 0x100000000000000000000000000000000nat,
            0x10000000000000000000000000000000000000000000000000000000000000000nat,
        );
    }
    let lshift = u256_shl(&lw, 128);
    let diffp = u256_sub(&pb, &pa);
    let out_num = u256_full_mul(&lshift, &diffp);
    let out_den = u256_full_mul(&pa, &pb);
    proof {
        assert(pa.as_nat() * pb.as_nat() >= 1) by (nonlinear_arith)
            requires
                pa.as_nat() >= 1,
                pb.as_nat() >= 1,
        ;
    }
    let opair = u512_div_mod(&out_num, &out_den);
    proof {
        crate::wide::lemma_u256_bound(lshift);
        lemma_out0_floor_fits(
            lshift.as_nat(),
            pa.as_nat(),
            pb.as_nat(),
            (pb.as_nat() - pa.as_nat()) as nat,
            opair.0.as_nat(),
        );
    }
    opair.0.to_u256()
}

/// The token1 put out as the price falls from `pb` to `pa`.
fn amount1_out_exec(liquidity: u128, pa: U256, pb: U256) -> (r: U256)
    requires
        liquidity >= 1,
        pa.as_nat() <= pb.as_nat(),
    ensures
        r.as_nat() == amount1_delta(liquidity as nat, pa.as_nat(), pb.as_nat()),
{
    proof {
        crate::wide::lemma_pow2_literals();
    }
    let lw = U256::from_u128(liquidity);
    let one_x128 = U256::from_limbs(0, 0, 1, 0);
    let diffp = u256_sub(&pb, &pa);
    proof {
        crate::wide::lemma_u256_bound(diffp);
        assert((liquidity as nat) * diffp.as_nat() <= 0x100000000000000000000000000000000nat
            * (0x10000000000000000000000000000000000000000000000000000000000000000nat - 1))
            by (nonlinear_arith)
            requires
                (liquidity as nat) <= 0x100000000000000000000000000000000nat,
                diffp.as_nat()
                    < 0x10000000000000000000000000000000000000000000000000000000000000000nat,
        ;
        vstd::arithmetic::div_mod::lemma_multiply_divide_le(
            ((liquidity as nat) * diffp.as_nat()) as int,
            0x100000000000000000000000000000000nat as int,
            0x10000000000000000000000000000000000000000000000000000000000000000nat as int - 1,
        );
    }
    muldiv(&lw, &diffp, &one_x128, false).unwrap()
}


/// Equal limb values stand for equal numbers, and conversely.
proof fn lemma_as_nat_eq(a: U256, b: U256)
    ensures
        (a == b) <==> (a.as_nat() == b.as_nat()),
{
    if a.as_nat() == b.as_nat() {
        lemma_limbs_unique(a, b);
    }
}

/// Base-`2^64` representations are unique.
proof fn lemma_limbs_unique(a: U256, b: U256)
    requires
        a.as_nat() == b.as_nat(),
    ensures
        a == b,
{
    assert(a.w0 == b.w0 && a.w1 == b.w1 && a.w2 == b.w2 && a.w3 == b.w3) by (nonlinear_arith)
        requires
            (a.w0 as nat) + (a.w1 as nat) * 0x10000000000000000 + (a.w2 as nat)
                * 0x100000000000000000000000000000000nat + (a.w3 as nat)
                * 0x1000000000000000000000000000000000000000000000000nat == (b.w0 as nat) + (
            b.w1 as nat) * 0x10000000000000000 + (b.w2 as nat)
                * 0x100000000000000000000000000000000nat + (b.w3 as nat)
                * 0x1000000000000000000000000000000000000000000000000nat,
            a.w0 < 0x10000000000000000,
            a.w1 < 0x10000000000000000,
            a.w2 < 0x10000000000000000,
            a.w3 < 0x10000000000000000,
            b.w0 < 0x10000000000000000,
            b.w1 < 0x10000000000000000,
            b.w2 < 0x10000000000000000,
            b.w3 < 0x10000000000000000,
    ;
}

/// `div_up(l * room, 2^128)` stays within 256 bits.
proof fn lemma_muldiv_up_fits(l: nat, room: nat)
    requires
        l < 0x100000000000000000000000000000000nat,
        room < 0x10000000000000000000000000000000000000000000000000000000000000000nat,
    ensures
        crate::muldiv::div_up(l * room, 0x100000000000000000000000000000000nat)
            < 0x10000000000000000000000000000000000000000000000000000000000000000nat,
{
    assert(l * room < 0x100000000000000000000000000000000nat * (
    0x10000000000000000000000000000000000000000000000000000000000000000nat - 1))
        by (nonlinear_arith)
        requires
            l < 0x100000000000000000000000000000000nat,
            room < 0x10000000000000000000000000000000000000000000000000000000000000000nat,
    ;
    vstd::arithmetic::div_mod::lemma_multiply_divide_lt(
        (l * room) as int,
        0x100000000000000000000000000000000nat as int,
        0x10000000000000000000000000000000000000000000000000000000000000000nat as int - 1,
    );
}

/// The quotient of `lx * p` by a denominator at least `lx` is at most `p`,
/// rounded either way.
proof fn lemma_down_quotient_le(lx: nat, den: nat, p: nat, q: nat, rem: nat)
    requires
        lx >= 1,
        den >= lx,
        q == (lx * p) / den,
        rem == (lx * p) % den,
    ensures
        q <= p,
        rem != 0 ==> q + 1 <= p,
{
    vstd::arithmetic::div_mod::lemma_fundamental_div_mod((lx * p) as int, den as int);
    assert(lx * p <= den * p) by (nonlinear_arith)
        requires
            lx <= den,
            p >= 0,
    ;
    assert(q <= p) by (nonlinear_arith)
        requires
            q * den + rem == lx * p,
            lx * p <= den * p,
            rem >= 0,
            den >= 1,
    ;
    if rem != 0 {
        assert(q + 1 <= p) by (nonlinear_arith)
            requires
                q * den + rem == lx * p,
                lx * p <= den * p,
                rem >= 1,
                den >= 1,
                q <= p,
        ;
    }
}

/// The token0 amount between two in-range prices fits well inside 256 bits,
/// rounded either way.
proof fn lemma_out0_fits(lx: nat, pa: nat, pb: nat, diff: nat, q: nat, rem: nat)
    requires
        lx < 0x10000000000000000000000000000000000000000000000000000000000000000nat,
        pa >= 0x10000000000000000,
        pb >= 1,
        diff <= pb,
        q == (lx * diff) / (pa * pb),
        rem == (lx * diff) % (pa * pb),
    ensures
        q < 0x1000000000000000000000000000000000000000000000000nat,
        q + 1 < 0x10000000000000000000000000000000000000000000000000000000000000000nat,
        crate::muldiv::div_up(lx * diff, pa * pb)
            < 0x10000000000000000000000000000000000000000000000000000000000000000nat,
{
    assert(pa * pb >= 1) by (nonlinear_arith)
        requires
            pa >= 1,
            pb >= 1,
    ;
    vstd::arithmetic::div_mod::lemma_fundamental_div_mod((lx * diff) as int, (pa * pb) as int);
    assert(lx * diff <= lx * pb) by (nonlinear_arith)
        requires
            diff <= pb,
            lx >= 0,
    ;
    assert(q * pa <= lx) by (nonlinear_arith)
        requires
            q * (pa * pb) + rem == lx * diff,
            lx * diff <= lx * pb,
            rem >= 0,
            pb >= 1,
            pa >= 1,
    ;
    assert(q < 0x1000000000000000000000000000000000000000000000000nat) by (nonlinear_arith)
        requires
            q * pa <= lx,
            pa >= 0x10000000000000000,
            lx < 0x10000000000000000000000000000000000000000000000000000000000000000nat,
    ;
}

/// The floor-rounded token0 output fits in 256 bits.
proof fn lemma_out0_floor_fits(lx: nat, pa: nat, pb: nat, diff: nat, q: nat)
    requires
        lx < 0x10000000000000000000000000000000000000000000000000000000000000000nat,
        pa >= 0x10000000000000000,
        pb >= 1,
        diff <= pb,
        q == (lx * diff) / (pa * pb),
    ensures
        q < 0x10000000000000000000000000000000000000000000000000000000000000000nat,
{
    lemma_out0_fits(lx, pa, pb, diff, q, (lx * diff) % (pa * pb));
}

/// State of an oracle pool: the wrapped price state and the time of the
/// last recorded oracle snapshot.
#[derive(Clone, Copy, Debug)]
pub struct OraclePoolState {
    pub full_range_pool_state: FullRangePoolState,
    pub last_snapshot_time: u64,
}

/// Work done by an oracle quote: the wrapped pool's work plus any snapshot
/// write.
#[derive(Clone, Copy, Debug, PartialEq, Eq, Structural)]
pub struct OraclePoolResources {
    pub full_range_pool_resources: FullRangePoolResources,
    pub snapshots_written: u32,
}

impl Default for OraclePoolResources {
    /// No work done.
    fn default() -> (r: OraclePoolResources)
        ensures
            r.snapshots_written == 0,
            r.full_range_pool_resources.price_changes == 0,
    {
        OraclePoolResources {
            full_range_pool_resources: FullRangePoolResources { price_changes: 0 },
            snapshots_written: 0,
        }
    }
}

impl OraclePoolResources {
    pub fn zero() -> (r: OraclePoolResources)
        ensures
            r.snapshots_written == 0,
            r.full_range_pool_resources.price_changes == 0,
    {
        OraclePoolResources {
            full_range_pool_resources: FullRangePoolResources { price_changes: 0 },
            snapshots_written: 0,
        }
    }

    /// Component-wise sum.
    pub fn add(self, rhs: OraclePoolResources) -> (r: OraclePoolResources)
        requires
            self.snapshots_written + rhs.snapshots_written <= u32::MAX,
            self.full_range_pool_resources.price_changes
                + rhs.full_range_pool_resources.price_changes <= u32::MAX,
        ensures
            r.snapshots_written == self.snapshots_written + rhs.snapshots_written,
            r.full_range_pool_resources.price_changes == self.full_range_pool_resources.price_changes
                + rhs.full_range_pool_resources.price_changes,
    {
        OraclePoolResources {
            full_range_pool_resources: self.full_range_pool_resources.add(
                rhs.full_range_pool_resources,
            ),
            snapshots_written: self.snapshots_written + rhs.snapshots_written,
        }
    }

    /// Component-wise difference.
    pub fn sub(self, rhs: OraclePoolResources) -> (r: OraclePoolResources)
        requires
            rhs.snapshots_written <= self.snapshots_written,
            rhs.full_range_pool_resources.price_changes
                <= self.full_range_pool_resources.price_changes,
        ensures
            r.snapshots_written == self.snapshots_written - rhs.snapshots_written,
            r.full_range_pool_resources.price_changes == self.full_range_pool_resources.price_changes
                - rhs.full_range_pool_resources.price_changes,
    {
        OraclePoolResources {
            full_range_pool_resources: self.full_range_pool_resources.sub(
                rhs.full_range_pool_resources,
            ),
            snapshots_written: self.snapshots_written - rhs.snapshots_written,
        }
    }
}

/// Why an oracle pool cannot be built.
#[derive(Clone, Copy, Debug, PartialEq, Eq, Structural)]
pub enum OraclePoolError {
    /// The wrapped full-range pool rejected its inputs.
    FullRangePoolError(FullRangePoolError),
}

/// A full-range pool extended with oracle snapshot bookkeeping.
#[derive(Clone, Copy, Debug)]
pub struct OraclePool {
    pub full_range_pool: FullRangePool,
    pub last_snapshot_time: u64,
}

impl OraclePool {
    /// The oracle pool is as well formed as the pool it wraps.
    pub open spec fn wf(self) -> bool {
        self.full_range_pool.wf()
    }

    /// Builds an oracle pool over the native token and `token1`, with a
    /// fee-free full-range configuration.
    pub fn new(
        token1: U256,
        extension: U256,
        sqrt_ratio: U256,
        active_liquidity: u128,
        last_snapshot_time: u64,
    ) -> (r: Result<OraclePool, OraclePoolError>)
        ensures
            (r is Ok) <==> state_wf(
                FullRangePoolState { sqrt_ratio, liquidity: active_liquidity },
            ),
            r matches Ok(p) ==> {
                &&& p.wf()
                &&& p.full_range_pool.key.token0 == (U256 { w0: 0, w1: 0, w2: 0, w3: 0 })
                &&& p.full_range_pool.key.token1 == token1
                &&& p.full_range_pool.key.config.extension == extension
                &&& p.full_range_pool.key.config.fee == 0
                &&& p.full_range_pool.key.config.tick_spacing == FULL_RANGE_TICK_SPACING
                &&& p.full_range_pool.state.sqrt_ratio == sqrt_ratio
                &&& p.full_range_pool.state.liquidity == active_liquidity
                &&& p.last_snapshot_time == last_snapshot_time
            },
            r matches Err(e) ==> e == OraclePoolError::FullRangePoolError(
                FullRangePoolError::SqrtRatioOutOfBounds,
            ),
    {
        let key = NodeKey {
            token0: native_token_address(),
            token1,
            config: Config { fee: 0, tick_spacing: FULL_RANGE_TICK_SPACING, extension },
        };
        let state = FullRangePoolState { sqrt_ratio, liquidity: active_liquidity };
        match FullRangePool::new(key, state) {
            Ok(full_range_pool) => Ok(OraclePool { full_range_pool, last_snapshot_time }),
            Err(e) => Err(OraclePoolError::FullRangePoolError(e)),
        }
    }

    /// The pool's identity.
    pub fn get_key(&self) -> (r: &NodeKey)
        ensures
            r == self.full_range_pool.key,
    {
        self.full_range_pool.get_key()
    }

    /// The pool's current state, snapshot time included.
    pub fn get_state(&self) -> (r: OraclePoolState)
        ensures
            r.full_range_pool_state == self.full_range_pool.state,
            r.last_snapshot_time == self.last_snapshot_time,
    {
        OraclePoolState {
            full_range_pool_state: self.full_range_pool.get_state(),
            last_snapshot_time: self.last_snapshot_time,
        }
    }

    /// Quotes a swap against the wrapped pool, and counts a snapshot write
    /// when the quote's block time differs from the pool's snapshot time.
    pub fn quote(&self, params: QuoteParams<OraclePoolState, BlockTimestamp>) -> (r: Result<
        Quote<OraclePoolResources, OraclePoolState>,
        FullRangePoolQuoteError,
    >)
        requires
            self.wf(),
            params.token_amount.amount >= 0,
            params.override_state matches Some(os) ==> state_wf(os.full_range_pool_state),
        ensures
            ({
                let st = match params.override_state {
                    Some(os) => os.full_range_pool_state,
                    None => self.full_range_pool.state,
                };
                let pool_time = match params.override_state {
                    Some(os) => os.last_snapshot_time,
                    None => self.last_snapshot_time,
                };
                let is_token1 = params.token_amount.token == self.full_range_pool.key.token1;
                let valid_token = params.token_amount.token == self.full_range_pool.key.token0
                    || params.token_amount.token == self.full_range_pool.key.token1;
                let lim_ok = limit_valid(st.sqrt_ratio.as_nat(), params.sqrt_ratio_limit, is_token1);
                let out = quote_calc(
                    st,
                    params.token_amount.amount as nat,
                    is_token1,
                    limit_of(params.sqrt_ratio_limit, is_token1),
                );
                &&& (r is Ok) <==> (valid_token && lim_ok && out.2
                    < 0x80000000000000000000000000000000nat)
                &&& (r matches Ok(q) ==> {
                    &&& q.calculated_amount == out.2
                    &&& q.consumed_amount == out.1
                    &&& q.fees_paid == 0
                    &&& q.is_price_increasing == is_token1
                    &&& q.state_after.full_range_pool_state.sqrt_ratio.as_nat() == out.0
                    &&& q.state_after.full_range_pool_state.liquidity == st.liquidity
                    &&& state_wf(q.state_after.full_range_pool_state)
                    &&& q.state_after.last_snapshot_time == params.meta
                    &&& q.execution_resources.snapshots_written == (if pool_time != params.meta {
                        1u32
                    } else {
                        0u32
                    })
                    &&& q.execution_resources.full_range_pool_resources.price_changes == (
                    if out.0 != st.sqrt_ratio.as_nat() {
                        1u32
                    } else {
                        0u32
                    })
                })
                &&& (r matches Err(e) ==> e == (if !valid_token {
                    FullRangePoolQuoteError::InvalidToken
                } else if !lim_ok {
                    FullRangePoolQuoteError::InvalidSqrtRatioLimit
                } else {
                    FullRangePoolQuoteError::CalculatedAmountOverflow
                }))
            }),
    {
        let block_time = params.meta;
        let pool_time = match params.override_state {
            Some(os) => os.last_snapshot_time,
            None => self.last_snapshot_time,
        };
        let inner_override = match params.override_state {
            Some(os) => Some(os.full_range_pool_state),
            None => None,
        };
        let result = self.full_range_pool.quote(
            QuoteParams {
                sqrt_ratio_limit: params.sqrt_ratio_limit,
                override_state: inner_override,
                token_amount: params.token_amount,
                meta: (),
            },
        );
        match result {
            Ok(q) => Ok(
                Quote {
                    calculated_amount: q.calculated_amount,
                    consumed_amount: q.consumed_amount,
                    execution_resources: OraclePoolResources {
                        snapshots_written: if pool_time != block_time {
                            1
                        } else {
                            0
                        },
                        full_range_pool_resources: q.execution_resources,
                    },
                    fees_paid: q.fees_paid,
                    is_price_increasing: q.is_price_increasing,
                    state_after: OraclePoolState {
                        full_range_pool_state: q.state_after,
                        last_snapshot_time: block_time,
                    },
                },
            ),
            Err(e) => Err(e),
        }
    }

    /// Whether any liquidity is present.
    pub fn has_liquidity(&self) -> (r: bool)
        ensures
            r == (self.full_range_pool.state.liquidity != 0),
    {
        self.full_range_pool.has_liquidity()
    }

    /// The highest tick at which the pool holds liquidity.
    pub fn max_tick_with_liquidity(&self) -> (r: Option<i32>)
        ensures
            r == (if self.full_range_pool.state.liquidity != 0 {
                Some(crate::tick::MAX_TICK)
            } else {
                Option::<i32>::None
            }),
    {
        self.full_range_pool.max_tick_with_liquidity()
    }

    /// The lowest tick at which the pool holds liquidity.
    pub fn min_tick_with_liquidity(&self) -> (r: Option<i32>)
        ensures
            r == (if self.full_range_pool.state.liquidity != 0 {
                Some(crate::tick::MIN_TICK)
            } else {
                Option::<i32>::None
            }),
    {
        self.full_range_pool.min_tick_with_liquidity()
    }

    /// An oracle quote depends only on the pool state, never on the path
    /// taken to it.
    pub fn is_path_dependent(&self) -> (r: bool)
        ensures
            r == false,
    {
        false
    }
}

} // verus!
