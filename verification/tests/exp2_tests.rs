use amm_math::exp2::exp2;

#[test]
fn test_exp2_cases() {
    assert_eq!(exp2(0), 1 << 64);
}

#[test]
fn test_exp2_integer_points() {
    assert_eq!(exp2(1 << 64), 1 << 65);
    assert_eq!(exp2(2 << 64), 1 << 66);
    assert_eq!(exp2(63 << 64), 1 << 127);
}

#[test]
fn test_exp2_half() {
    // 2^(1/2) in Q64.64: floor(sqrt(2) * 2^64)
    assert_eq!(exp2(1 << 63), 26087635650665564424);
}

#[test]
fn test_exp2_negative() {
    // 2^-1 in Q64.64
    assert_eq!(exp2(-(1i128 << 64)), 1 << 63);
}

#[test]
fn test_exp2_underflow_to_zero() {
    assert_eq!(exp2(-0x400000000000000001), 0);
    assert_eq!(exp2(i128::MIN), 0);
}

#[test]
fn test_exp2_monotone_samples() {
    let xs: [i128; 7] = [
        -0x400000000000000000,
        -(1 << 70),
        -(1 << 64),
        0,
        1 << 63,
        1 << 64,
        (63 << 64) + 1234,
    ];
    for w in xs.windows(2) {
        assert!(exp2(w[0]) <= exp2(w[1]));
    }
}
