use amm_math::pool::{
    native_token_address, Config, FullRangePool, FullRangePoolError, FullRangePoolQuoteError,
    FullRangePoolResources, FullRangePoolState, NodeKey, OraclePool, OraclePoolError,
    OraclePoolResources, QuoteParams, TokenAmount,
};
use amm_math::tick::{max_sqrt_ratio, min_sqrt_ratio, to_sqrt_ratio};
use amm_math::wide::U256;

fn token() -> U256 {
    U256::from_limbs(1, 0, 0, 0)
}

fn extension() -> U256 {
    U256::from_limbs(3, 0, 0, 0)
}

#[test]
fn test_max_price_constructor() {
    assert_eq!(
        OraclePool::new(U256::from_limbs(1, 0, 0, 0), U256::zero(), max_sqrt_ratio(), 1, 0)
            .expect("Pool creation should succeed")
            .get_state()
            .full_range_pool_state
            .liquidity,
        1
    );
}

#[test]
fn test_min_price_constructor() {
    assert_eq!(
        OraclePool::new(U256::from_limbs(1, 0, 0, 0), U256::zero(), min_sqrt_ratio(), 1, 0)
            .expect("Pool creation should succeed")
            .get_state()
            .full_range_pool_state
            .liquidity,
        1
    );
}

#[test]
fn test_min_sqrt_ratio() {
    assert_eq!(
        OraclePool::new(U256::from_limbs(1, 0, 0, 0), U256::zero(), min_sqrt_ratio(), 1, 0)
            .expect("Pool creation should succeed")
            .get_state()
            .full_range_pool_state
            .liquidity,
        1
    );
}

#[test]
fn test_max_sqrt_ratio() {
    assert_eq!(
        OraclePool::new(U256::from_limbs(1, 0, 0, 0), U256::zero(), max_sqrt_ratio(), 1, 0)
            .expect("Pool creation should succeed")
            .get_state()
            .full_range_pool_state
            .liquidity,
        1
    );
}

#[test]
fn test_quote_token1_input_update() {
    let pool = OraclePool::new(token(), extension(), to_sqrt_ratio(0).unwrap(), 1_000_000_000, 1)
        .expect("Pool creation should succeed");

    let params = QuoteParams {
        token_amount: TokenAmount { amount: 1000, token: token() },
        sqrt_ratio_limit: None,
        override_state: None,
        meta: 2,
    };

    let quote = pool.quote(params).expect("Failed to get quote");

    assert_eq!(quote.calculated_amount, 999);
    assert_eq!(quote.consumed_amount, 1000);
    assert_eq!(quote.execution_resources.snapshots_written, 1);
    assert_eq!(quote.state_after.last_snapshot_time, 2);
}

#[test]
fn test_quote_token0_input() {
    let pool = OraclePool::new(token(), extension(), to_sqrt_ratio(0).unwrap(), 1_000_000_000, 1)
        .expect("Pool creation should succeed");

    let params = QuoteParams {
        token_amount: TokenAmount { amount: 1000, token: native_token_address() },
        sqrt_ratio_limit: None,
        override_state: None,
        meta: 2,
    };

    let quote = pool.quote(params).expect("Failed to get quote");

    assert_eq!(quote.calculated_amount, 999);
    assert_eq!(quote.consumed_amount, 1000);
    assert_eq!(quote.execution_resources.snapshots_written, 1);
    assert_eq!(quote.state_after.last_snapshot_time, 2);
}

#[test]
fn test_quote_same_block_writes_no_snapshot() {
    let pool = OraclePool::new(token(), extension(), to_sqrt_ratio(0).unwrap(), 1_000_000_000, 2)
        .expect("Pool creation should succeed");
    let params = QuoteParams {
        token_amount: TokenAmount { amount: 1000, token: token() },
        sqrt_ratio_limit: None,
        override_state: None,
        meta: 2,
    };
    let quote = pool.quote(params).expect("Failed to get quote");
    assert_eq!(quote.execution_resources.snapshots_written, 0);
    assert!(quote.is_price_increasing);
}

#[test]
fn test_oracle_pool_rejects_out_of_range_price() {
    let r = OraclePool::new(token(), extension(), U256::zero(), 1, 0);
    assert_eq!(
        r.unwrap_err(),
        OraclePoolError::FullRangePoolError(FullRangePoolError::SqrtRatioOutOfBounds)
    );
}

#[test]
fn test_full_range_pool_rejects_tick_spacing() {
    let key = NodeKey {
        token0: native_token_address(),
        token1: token(),
        config: Config { fee: 0, tick_spacing: 1, extension: extension() },
    };
    let state = FullRangePoolState { sqrt_ratio: to_sqrt_ratio(0).unwrap(), liquidity: 1 };
    assert_eq!(FullRangePool::new(key, state).unwrap_err(), FullRangePoolError::UnsupportedConfig);
}

#[test]
fn test_quote_invalid_token() {
    let pool = OraclePool::new(token(), extension(), to_sqrt_ratio(0).unwrap(), 1_000_000_000, 1)
        .expect("Pool creation should succeed");
    let params = QuoteParams {
        token_amount: TokenAmount { amount: 1000, token: U256::from_limbs(9, 9, 9, 9) },
        sqrt_ratio_limit: None,
        override_state: None,
        meta: 2,
    };
    assert_eq!(pool.quote(params).unwrap_err(), FullRangePoolQuoteError::InvalidToken);
}

#[test]
fn test_quote_invalid_limit() {
    let pool = OraclePool::new(token(), extension(), to_sqrt_ratio(0).unwrap(), 1_000_000_000, 1)
        .expect("Pool creation should succeed");
    // a limit below the current price is on the wrong side for a token1 input
    let params = QuoteParams {
        token_amount: TokenAmount { amount: 1000, token: token() },
        sqrt_ratio_limit: Some(min_sqrt_ratio()),
        override_state: None,
        meta: 2,
    };
    assert_eq!(pool.quote(params).unwrap_err(), FullRangePoolQuoteError::InvalidSqrtRatioLimit);
}

#[test]
fn test_quote_stops_at_limit() {
    let start = to_sqrt_ratio(0).unwrap();
    let limit = to_sqrt_ratio(1).unwrap();
    let pool = OraclePool::new(token(), extension(), start, 1_000_000_000, 1)
        .expect("Pool creation should succeed");
    // far more input than the limit can absorb: the rest stays unconsumed
    let params = QuoteParams {
        token_amount: TokenAmount { amount: 1_000_000_000, token: token() },
        sqrt_ratio_limit: Some(limit),
        override_state: None,
        meta: 2,
    };
    let quote = pool.quote(params).expect("Failed to get quote");
    assert_eq!(quote.state_after.full_range_pool_state.sqrt_ratio, limit);
    assert!(quote.consumed_amount < 1_000_000_000);
    assert!(quote.calculated_amount > 0);
}

#[test]
fn test_quote_zero_liquidity() {
    let pool = OraclePool::new(token(), extension(), to_sqrt_ratio(0).unwrap(), 0, 1)
        .expect("Pool creation should succeed");
    let params = QuoteParams {
        token_amount: TokenAmount { amount: 1000, token: token() },
        sqrt_ratio_limit: None,
        override_state: None,
        meta: 2,
    };
    let quote = pool.quote(params).expect("Failed to get quote");
    assert_eq!(quote.calculated_amount, 0);
    assert_eq!(quote.consumed_amount, 0);
    assert!(!pool.has_liquidity());
}

#[test]
fn test_tick_range_with_liquidity() {
    let pool = OraclePool::new(token(), extension(), to_sqrt_ratio(0).unwrap(), 5, 1)
        .expect("Pool creation should succeed");
    assert_eq!(pool.min_tick_with_liquidity(), Some(amm_math::tick::MIN_TICK));
    assert_eq!(pool.max_tick_with_liquidity(), Some(amm_math::tick::MAX_TICK));
    assert!(!pool.is_path_dependent());
}

#[test]
fn test_resources_arithmetic() {
    let zero = OraclePoolResources::default();
    assert_eq!(zero.snapshots_written, 0);
    let one = OraclePoolResources {
        full_range_pool_resources: FullRangePoolResources { price_changes: 1 },
        snapshots_written: 1,
    };
    let two = one.add(one);
    assert_eq!(two.snapshots_written, 2);
    assert_eq!(two.full_range_pool_resources.price_changes, 2);
    assert_eq!(two.sub(one), one);
    assert_eq!(one.add(zero), one);
}
