use amm_math::muldiv::muldiv;
use amm_math::wide::U256;

fn u(x: u128) -> U256 {
    U256::from_u128(x)
}

#[test]
fn test_muldiv_zero_divisor() {
    assert_eq!(muldiv(&u(1), &u(1), &u(0), false), None);
    assert_eq!(muldiv(&u(1), &u(1), &u(0), true), None);
}

#[test]
fn test_muldiv_rounding() {
    assert_eq!(muldiv(&u(7), &u(3), &u(4), false), Some(u(5)));
    assert_eq!(muldiv(&u(7), &u(3), &u(4), true), Some(u(6)));
    assert_eq!(muldiv(&u(8), &u(3), &u(4), false), Some(u(6)));
    assert_eq!(muldiv(&u(8), &u(3), &u(4), true), Some(u(6)));
}

#[test]
fn test_muldiv_wide_intermediate() {
    // the product needs more than 256 bits before the division brings it back
    let big = U256::from_limbs(0, 0, 0, 1); // 2^192
    assert_eq!(muldiv(&big, &big, &big, false), Some(big));
}

#[test]
fn test_muldiv_overflow() {
    let max = U256::from_limbs(u64::MAX, u64::MAX, u64::MAX, u64::MAX);
    assert_eq!(muldiv(&max, &max, &u(1), false), None);
}

#[test]
fn test_u256_ordering() {
    let a = U256::from_limbs(5, 0, 0, 0);
    let b = U256::from_limbs(0, 1, 0, 0);
    assert!(a.lt(&b));
    assert!(a.le(&b));
    assert!(!b.le(&a));
    assert_eq!(b.low_u128(), 1u128 << 64);
    assert!(U256::zero().is_zero());
}
