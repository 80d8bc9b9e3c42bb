use amm_math::tick::{
    max_sqrt_ratio, min_sqrt_ratio, to_sqrt_ratio, MAX_TICK, MAX_TICK_SPACING, MIN_TICK,
};
use amm_math::wide::U256;

fn from_dec(s: &str) -> U256 {
    let v = primitive_types::U256::from_dec_str(s).unwrap().0;
    U256::from_limbs(v[0], v[1], v[2], v[3])
}

#[test]
fn test_tick_examples() {
    assert_eq!(
        to_sqrt_ratio(1000000).unwrap(),
        from_dec("561030636129153856592777659729523183729"),
    );
    assert_eq!(
        to_sqrt_ratio(10000000).unwrap(),
        from_dec("50502254805927926084427918474025309948677"),
    );
    assert_eq!(
        to_sqrt_ratio(-1000000).unwrap(),
        from_dec("206391740095027370700312310531588921767"),
    );
    assert_eq!(
        to_sqrt_ratio(-10000000).unwrap(),
        from_dec("2292810285051363400276741638672651165"),
    );
}

#[test]
fn test_tick_too_small() {
    assert!(to_sqrt_ratio(MIN_TICK - 1).is_none());
    assert!(to_sqrt_ratio(i32::MIN).is_none());
}

#[test]
fn test_min_tick() {
    assert_eq!(to_sqrt_ratio(MIN_TICK).unwrap(), min_sqrt_ratio(),);
}

#[test]
fn test_max_tick() {
    assert_eq!(to_sqrt_ratio(MAX_TICK).unwrap(), max_sqrt_ratio(),);
}

#[test]
fn test_tick_too_large() {
    assert!(to_sqrt_ratio(MAX_TICK + 1).is_none());
    assert!(to_sqrt_ratio(i32::MAX).is_none());
}

#[test]
fn test_tick_zero_is_one_x128() {
    assert_eq!(to_sqrt_ratio(0).unwrap(), U256::from_limbs(0, 0, 1, 0));
}

#[test]
fn test_tick_monotone_samples() {
    let ticks = [
        MIN_TICK,
        MIN_TICK + 1,
        -10000000,
        -1000000,
        -1,
        0,
        1,
        1000000,
        10000000,
        MAX_TICK - 1,
        MAX_TICK,
    ];
    for w in ticks.windows(2) {
        let a = to_sqrt_ratio(w[0]).unwrap();
        let b = to_sqrt_ratio(w[1]).unwrap();
        assert!(a.lt(&b), "expected ratio of {} below ratio of {}", w[0], w[1]);
    }
}

#[test]
fn test_adjacent_ticks_strictly_increase() {
    for t in [-88722835, -698605, -2, -1, 0, 1, 698604, 88722834] {
        let a = to_sqrt_ratio(t).unwrap();
        let b = to_sqrt_ratio(t + 1).unwrap();
        assert!(a.lt(&b));
    }
}

#[test]
fn test_max_tick_spacing_tick_valid() {
    assert!(to_sqrt_ratio(MAX_TICK_SPACING as i32).is_some());
}
