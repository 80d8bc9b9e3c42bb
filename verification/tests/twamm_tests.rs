use amm_math::tick::{max_sqrt_ratio, min_sqrt_ratio};
use amm_math::twamm::{calculate_next_sqrt_ratio, compute_c, compute_sqrt_sale_ratio};
use amm_math::wide::U256;

fn from_dec(s: &str) -> U256 {
    let v = primitive_types::U256::from_dec_str(s).unwrap().0;
    U256::from_limbs(v[0], v[1], v[2], v[3])
}

fn u(x: u128) -> U256 {
    U256::from_u128(x)
}

const ONE_E18: u128 = 1_000_000_000_000_000_000; // 10^18
const SHIFT_32: u128 = 1u128 << 32; // 2^32 = 4294967296
const TOKEN_SALE_RATE: u128 = ONE_E18 * SHIFT_32; // 10^18 * 2^32

#[test]
fn test_compute_c() {
    assert_eq!(compute_c(u(0), u(1)), (U256::from_limbs(0, 0, 1, 0), false));
    assert_eq!(compute_c(u(1), u(0)), (U256::from_limbs(0, 0, 1, 0), true));

    assert_eq!(
        compute_c(U256::from_limbs(0, 0, 1, 0), U256::from_limbs(0, 0, 2, 0)),
        (from_dec("113427455640312821154458202477256070485"), false)
    );
    assert_eq!(
        compute_c(U256::from_limbs(0, 0, 2, 0), U256::from_limbs(0, 0, 1, 0)),
        (from_dec("113427455640312821154458202477256070485"), true)
    );
    assert_eq!(
        compute_c(U256::from_limbs(0, 0, 1, 0), U256::from_limbs(0, 0, 1, 0)),
        (u(0), false)
    );

    assert_eq!(
        compute_c(min_sqrt_ratio(), max_sqrt_ratio()),
        (from_dec("340282366920938463463374607431768211453"), false)
    );
    assert_eq!(
        compute_c(max_sqrt_ratio(), min_sqrt_ratio()),
        (from_dec("340282366920938463463374607431768211453"), true)
    );
}

struct TestCase {
    description: &'static str,
    sqrt_ratio: U256,
    liquidity: u128,
    token0_sale_rate: u128,
    token1_sale_rate: u128,
    time_elapsed: u32,
    fee: u64,
    expected: U256,
}

#[test]
fn test_calculate_next_sqrt_ratio() {
    let test_cases = vec![
        TestCase {
            description: "zero_liquidity_price_eq_sale_ratio",
            sqrt_ratio: u(0),
            liquidity: 0,
            token0_sale_rate: TOKEN_SALE_RATE,
            token1_sale_rate: TOKEN_SALE_RATE,
            time_elapsed: 0,
            fee: 0,
            expected: from_dec("340282366920938463463374607431768211456"),
        },
        TestCase {
            description: "large_exponent_price_sqrt_ratio",
            sqrt_ratio: U256::from_limbs(0, 0, 1, 0),
            liquidity: 1,
            token0_sale_rate: TOKEN_SALE_RATE,
            token1_sale_rate: 1980 * ONE_E18 * SHIFT_32,
            time_elapsed: 1,
            fee: 0,
            expected: from_dec("15141609448466370575828005229206655991808"),
        },
        TestCase {
            description: "low_liquiidty_same_sale_ratio",
            sqrt_ratio: U256::from_limbs(0, 0, 2, 0),
            liquidity: 1,
            token0_sale_rate: TOKEN_SALE_RATE,
            token1_sale_rate: TOKEN_SALE_RATE,
            time_elapsed: 1,
            fee: 0,
            expected: from_dec("340282366920938463463374607431768211456"),
        },
        TestCase {
            description: "low_liquidity_token0_gt_token1",
            sqrt_ratio: U256::from_limbs(0, 0, 1, 0),
            liquidity: 1,
            token0_sale_rate: 2 * TOKEN_SALE_RATE,
            token1_sale_rate: TOKEN_SALE_RATE,
            time_elapsed: 16,
            fee: 0,
            expected: from_dec("240615969168004511545033772477625056927"),
        },
        TestCase {
            description: "low_liquidity_token1_gt_token0",
            sqrt_ratio: U256::from_limbs(0, 0, 1, 0),
            liquidity: 1,
            token0_sale_rate: TOKEN_SALE_RATE,
            token1_sale_rate: 2 * TOKEN_SALE_RATE,
            time_elapsed: 16,
            fee: 0,
            expected: from_dec("481231938336009023090067544951314448384"),
        },
        TestCase {
            description: "high_liquidity_same_sale_rate",
            sqrt_ratio: U256::from_limbs(0, 0, 2, 0),
            liquidity: 1_000_000 * ONE_E18,
            token0_sale_rate: TOKEN_SALE_RATE,
            token1_sale_rate: TOKEN_SALE_RATE,
            time_elapsed: 1,
            fee: 0,
            expected: from_dec("680563712996817890757827685335626524192"),
        },
        TestCase {
            description: "high_liquidity_token0_gt_token1",
            sqrt_ratio: U256::from_limbs(0, 0, 1, 0),
            liquidity: 1_000_000 * ONE_E18,
            token0_sale_rate: 2 * TOKEN_SALE_RATE,
            token1_sale_rate: TOKEN_SALE_RATE,
            time_elapsed: 1,
            fee: 0,
            expected: from_dec("340282026639252118183347287047607050306"),
        },
        TestCase {
            description: "high_liquidity_token1_gt_token0",
            sqrt_ratio: U256::from_limbs(0, 0, 1, 0),
            liquidity: 1_000_000 * ONE_E18,
            token0_sale_rate: TOKEN_SALE_RATE,
            token1_sale_rate: 2 * TOKEN_SALE_RATE,
            time_elapsed: 1,
            fee: 0,
            expected: from_dec("340282707202965090089453576058304747105"),
        },
        TestCase {
            description: "round_in_direction_of_price",
            sqrt_ratio: from_dec("481231811499356508086519009265716982182"),
            liquidity: 70_710_696_755_630_728_101_718_334,
            token0_sale_rate: 10_526_880_627_450_980_392_156_862_745,
            token1_sale_rate: 10_526_880_627_450_980_392_156_862_745,
            time_elapsed: 2040,
            fee: 0,
            expected: from_dec("481207752340104468493822013619596511453"),
        },
        TestCase {
            description: "example0_solidity",
            sqrt_ratio: from_dec("3402823669209384634633746074317682114560000"),
            liquidity: 10_000,
            token0_sale_rate: 458864027,
            token1_sale_rate: 280824784,
            time_elapsed: 46_800,
            fee: 0,
            expected: from_dec("714795237151155238093993646993154300600"),
        },
    ];

    for test_case in test_cases {
        let result = calculate_next_sqrt_ratio(
            test_case.sqrt_ratio,
            test_case.liquidity,
            test_case.token0_sale_rate,
            test_case.token1_sale_rate,
            test_case.time_elapsed,
            test_case.fee,
        );
        assert_eq!(result, test_case.expected, "{}", test_case.description);

        // the result never crosses the equilibrium price
        let ssr = compute_sqrt_sale_ratio(test_case.token0_sale_rate, test_case.token1_sale_rate);
        if ssr.lt(&test_case.sqrt_ratio) {
            assert!(ssr.le(&result), "{}", test_case.description);
        } else if test_case.sqrt_ratio.lt(&ssr) && test_case.liquidity != 0 {
            assert!(result.le(&ssr), "{}", test_case.description);
        }
    }
}

#[test]
fn test_sqrt_sale_ratio_balanced_rates() {
    // equal rates imply an equilibrium price of exactly one, in Q128
    assert_eq!(
        compute_sqrt_sale_ratio(TOKEN_SALE_RATE, TOKEN_SALE_RATE),
        U256::from_limbs(0, 0, 1, 0)
    );
}

#[test]
fn test_sqrt_sale_ratio_solidity_example() {
    assert_eq!(
        compute_sqrt_sale_ratio(458864027, 280824784),
        from_dec("266204354737124236017038395067188130495")
    );
}

#[test]
fn test_zero_liquidity_returns_sale_ratio() {
    for (t0, t1) in [(1u128, 1u128), (7, 3), (458864027, 280824784), (TOKEN_SALE_RATE, 1)] {
        let r = calculate_next_sqrt_ratio(u(12345), 0, t0, t1, 99, 17);
        assert_eq!(r, compute_sqrt_sale_ratio(t0, t1));
    }
}

#[test]
fn test_price_at_equilibrium_stays() {
    for (t0, t1) in [(TOKEN_SALE_RATE, TOKEN_SALE_RATE), (458864027, 280824784)] {
        let ssr = compute_sqrt_sale_ratio(t0, t1);
        let r = calculate_next_sqrt_ratio(ssr, 1_000_000, t0, t1, 3600, 0);
        assert_eq!(r, ssr);
    }
}
