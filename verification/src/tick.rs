//! Conversion from a tick index to its square-root price ratio.
//!
//! A tick is a point on a logarithmic price grid; its square-root ratio is
//! `sqrt(1.0001)^tick` in Q128 fixed point, computed by binary decomposition
//! of the tick against a table of precomputed per-bit factors.
use vstd::prelude::*;

verus! {

use vstd::arithmetic::power2::pow2;
use vstd::arithmetic::power2::lemma2_to64;
use vstd::arithmetic::power2::lemma_pow2_adds;
use vstd::arithmetic::power2::lemma_pow2_pos;
use vstd::arithmetic::div_mod::lemma_fundamental_div_mod_converse;
use vstd::arithmetic::div_mod::lemma_div_denominator;
use vstd::arithmetic::div_mod::lemma_div_is_ordered;
use vstd::arithmetic::div_mod::lemma_multiply_divide_le;
use vstd::arithmetic::mul::lemma_mul_inequality;
use vstd::arithmetic::mul::lemma_mul_upper_bound;
use crate::wide::U256;
use crate::wide::u256_mul;
use crate::wide::u256_shr;
use crate::wide::u256_div;
use crate::wide::lemma_pow2_literals;

/// Lowest valid tick index.
pub const MIN_TICK: i32 = -88722835;

/// Highest valid tick index.
pub const MAX_TICK: i32 = 88722835;

/// Largest permitted spacing between initialized ticks.
pub const MAX_TICK_SPACING: u32 = 698605;

/// Sentinel spacing of a pool whose single position spans the whole range.
pub const FULL_RANGE_TICK_SPACING: u32 = 0;

/// The per-bit factor table: entry `i` is `sqrt(1.0001)^(2^i)` for a
/// negative tick, scaled by `2^128`.
pub open spec fn tick_mask(i: int) -> nat {
    if i == 0 {
        8987818235631183931nat + 18446734850344432284nat * 0x10000000000000000
    } else if i == 1 {
        1390292817054524432nat + 18446725626983924632nat * 0x10000000000000000
    } else if i == 2 {
        6106104599673403081nat + 18446707180276744355nat * 0x10000000000000000
    } else if i == 3 {
        11001558419889720088nat + 18446670286917723849nat * 0x10000000000000000
    } else if i == 4 {
        11758220747761187196nat + 18446596500421042512nat * 0x10000000000000000
    } else if i == 5 {
        13410380190397192564nat + 18446448928313114404nat * 0x10000000000000000
    } else if i == 6 {
        16901990496071521224nat + 18446153787638963396nat * 0x10000000000000000
    } else if i == 7 {
        2628633744169581664nat + 18445563520457217769nat * 0x10000000000000000
    } else if i == 8 {
        16741406942698519205nat + 18444383042757836574nat * 0x10000000000000000
    } else if i == 9 {
        8444515413536692068nat + 18442022313998591526nat * 0x10000000000000000
    } else if i == 10 {
        9306074004969915320nat + 18437301762902803792nat * 0x10000000000000000
    } else if i == 11 {
        1215727185815661655nat + 18427864285319361663nat * 0x10000000000000000
    } else if i == 12 {
        4836152305972799785nat + 18409003819927758022nat * 0x10000000000000000
    } else if i == 13 {
        465769373252535706nat + 18371340779054097314nat * 0x10000000000000000
    } else if i == 14 {
        11626538800767970419nat + 18296245704473805246nat * 0x10000000000000000
    } else if i == 15 {
        13511344043162985703nat + 18146975181141493926nat * 0x10000000000000000
    } else if i == 16 {
        17542275577360126846nat + 17852077684229624197nat * 0x10000000000000000
    } else if i == 17 {
        9306072323298629247nat + 17276581513264360642nat * 0x10000000000000000
    } else if i == 18 {
        8354374849381600509nat + 16180647793008867682nat * 0x10000000000000000
    } else if i == 19 {
        1840363272369915117nat + 14192930847592841948nat * 0x10000000000000000
    } else if i == 20 {
        16571633202497044730nat + 10920045577671636999nat * 0x10000000000000000
    } else if i == 21 {
        7981864148337927882nat + 6464414258794766152nat * 0x10000000000000000
    } else if i == 22 {
        4190795360855086819nat + 2265367348423649960nat * 0x10000000000000000
    } else if i == 23 {
        14440677137918516476nat + 278200272243057167nat * 0x10000000000000000
    } else if i == 24 {
        11954280435123913168nat + 4195612578938288nat * 0x10000000000000000
    } else if i == 25 {
        1943989925737446246nat + 954269482040nat * 0x10000000000000000
    } else if i == 26 {
        6723154418996326713nat + 49365nat * 0x10000000000000000
    } else {
        0
    }
}

/// Each factor is below `2^128`: the table holds ratios below one.
pub proof fn lemma_tick_mask_bound(i: int)
    requires
        0 <= i < 27,
    ensures
        tick_mask(i) < 0x100000000000000000000000000000000nat,
{
    assert(8987818235631183931nat + 18446734850344432284nat * 0x10000000000000000 < 0x100000000000000000000000000000000nat)
        by (nonlinear_arith);
    assert(1390292817054524432nat + 18446725626983924632nat * 0x10000000000000000 < 0x100000000000000000000000000000000nat)
        by (nonlinear_arith);
    assert(6106104599673403081nat + 18446707180276744355nat * 0x10000000000000000 < 0x100000000000000000000000000000000nat)
        by (nonlinear_arith);
    assert(11001558419889720088nat + 18446670286917723849nat * 0x10000000000000000 < 0x100000000000000000000000000000000nat)
        by (nonlinear_arith);
    assert(11758220747761187196nat + 18446596500421042512nat * 0x10000000000000000 < 0x100000000000000000000000000000000nat)
        by (nonlinear_arith);
    assert(13410380190397192564nat + 18446448928313114404nat * 0x10000000000000000 < 0x100000000000000000000000000000000nat)
        by (nonlinear_arith);
    assert(16901990496071521224nat + 18446153787638963396nat * 0x10000000000000000 < 0x100000000000000000000000000000000nat)
        by (nonlinear_arith);
    assert(2628633744169581664nat + 18445563520457217769nat * 0x10000000000000000 < 0x100000000000000000000000000000000nat)
        by (nonlinear_arith);
    assert(16741406942698519205nat + 18444383042757836574nat * 0x10000000000000000 < 0x100000000000000000000000000000000nat)
        by (nonlinear_arith);
    assert(8444515413536692068nat + 18442022313998591526nat * 0x10000000000000000 < 0x100000000000000000000000000000000nat)
        by (nonlinear_arith);
    assert(9306074004969915320nat + 18437301762902803792nat * 0x10000000000000000 < 0x100000000000000000000000000000000nat)
        by (nonlinear_arith);
    assert(1215727185815661655nat + 18427864285319361663nat * 0x10000000000000000 < 0x100000000000000000000000000000000nat)
        by (nonlinear_arith);
    assert(4836152305972799785nat + 18409003819927758022nat * 0x10000000000000000 < 0x100000000000000000000000000000000nat)
        by (nonlinear_arith);
    assert(465769373252535706nat + 18371340779054097314nat * 0x10000000000000000 < 0x100000000000000000000000000000000nat)
        by (nonlinear_arith);
    assert(11626538800767970419nat + 18296245704473805246nat * 0x10000000000000000 < 0x100000000000000000000000000000000nat)
        by (nonlinear_arith);
    assert(13511344043162985703nat + 18146975181141493926nat * 0x10000000000000000 < 0x100000000000000000000000000000000nat)
        by (nonlinear_arith);
    assert(17542275577360126846nat + 17852077684229624197nat * 0x10000000000000000 < 0x100000000000000000000000000000000nat)
        by (nonlinear_arith);
    assert(9306072323298629247nat + 17276581513264360642nat * 0x10000000000000000 < 0x100000000000000000000000000000000nat)
        by (nonlinear_arith);
    assert(8354374849381600509nat + 16180647793008867682nat * 0x10000000000000000 < 0x100000000000000000000000000000000nat)
        by (nonlinear_arith);
    assert(1840363272369915117nat + 14192930847592841948nat * 0x10000000000000000 < 0x100000000000000000000000000000000nat)
        by (nonlinear_arith);
    assert(16571633202497044730nat + 10920045577671636999nat * 0x10000000000000000 < 0x100000000000000000000000000000000nat)
        by (nonlinear_arith);
    assert(7981864148337927882nat + 6464414258794766152nat * 0x10000000000000000 < 0x100000000000000000000000000000000nat)
        by (nonlinear_arith);
    assert(4190795360855086819nat + 2265367348423649960nat * 0x10000000000000000 < 0x100000000000000000000000000000000nat)
        by (nonlinear_arith);
    assert(14440677137918516476nat + 278200272243057167nat * 0x10000000000000000 < 0x100000000000000000000000000000000nat)
        by (nonlinear_arith);
    assert(11954280435123913168nat + 4195612578938288nat * 0x10000000000000000 < 0x100000000000000000000000000000000nat)
        by (nonlinear_arith);
    assert(1943989925737446246nat + 954269482040nat * 0x10000000000000000 < 0x100000000000000000000000000000000nat)
        by (nonlinear_arith);
    assert(6723154418996326713nat + 49365nat * 0x10000000000000000 < 0x100000000000000000000000000000000nat)
        by (nonlinear_arith);
}

/// The factor table entry, as a wide value.
fn tick_mask_limbs(i: usize) -> (m: U256)
    requires
        i < 27,
    ensures
        m.as_nat() == tick_mask(i as int),
{
    if i == 0 {
        U256::from_limbs(8987818235631183931, 18446734850344432284, 0, 0)
    } else if i == 1 {
        U256::from_limbs(1390292817054524432, 18446725626983924632, 0, 0)
    } else if i == 2 {
        U256::from_limbs(6106104599673403081, 18446707180276744355, 0, 0)
    } else if i == 3 {
        U256::from_limbs(11001558419889720088, 18446670286917723849, 0, 0)
    } else if i == 4 {
        U256::from_limbs(11758220747761187196, 18446596500421042512, 0, 0)
    } else if i == 5 {
        U256::from_limbs(13410380190397192564, 18446448928313114404, 0, 0)
    } else if i == 6 {
        U256::from_limbs(16901990496071521224, 18446153787638963396, 0, 0)
    } else if i == 7 {
        U256::from_limbs(2628633744169581664, 18445563520457217769, 0, 0)
    } else if i == 8 {
        U256::from_limbs(16741406942698519205, 18444383042757836574, 0, 0)
    } else if i == 9 {
        U256::from_limbs(8444515413536692068, 18442022313998591526, 0, 0)
    } else if i == 10 {
        U256::from_limbs(9306074004969915320, 18437301762902803792, 0, 0)
    } else if i == 11 {
        U256::from_limbs(1215727185815661655, 18427864285319361663, 0, 0)
    } else if i == 12 {
        U256::from_limbs(4836152305972799785, 18409003819927758022, 0, 0)
    } else if i == 13 {
        U256::from_limbs(465769373252535706, 18371340779054097314, 0, 0)
    } else if i == 14 {
        U256::from_limbs(11626538800767970419, 18296245704473805246, 0, 0)
    } else if i == 15 {
        U256::from_limbs(13511344043162985703, 18146975181141493926, 0, 0)
    } else if i == 16 {
        U256::from_limbs(17542275577360126846, 17852077684229624197, 0, 0)
    } else if i == 17 {
        U256::from_limbs(9306072323298629247, 17276581513264360642, 0, 0)
    } else if i == 18 {
        U256::from_limbs(8354374849381600509, 16180647793008867682, 0, 0)
    } else if i == 19 {
        U256::from_limbs(1840363272369915117, 14192930847592841948, 0, 0)
    } else if i == 20 {
        U256::from_limbs(16571633202497044730, 10920045577671636999, 0, 0)
    } else if i == 21 {
        U256::from_limbs(7981864148337927882, 6464414258794766152, 0, 0)
    } else if i == 22 {
        U256::from_limbs(4190795360855086819, 2265367348423649960, 0, 0)
    } else if i == 23 {
        U256::from_limbs(14440677137918516476, 278200272243057167, 0, 0)
    } else if i == 24 {
        U256::from_limbs(11954280435123913168, 4195612578938288, 0, 0)
    } else if i == 25 {
        U256::from_limbs(1943989925737446246, 954269482040, 0, 0)
    } else if i == 26 {
        U256::from_limbs(6723154418996326713, 49365, 0, 0)
    } else {
        U256::from_limbs(0, 0, 0, 0)
    }
}

/// The Q128 ratio after the low `i` bits of the tick magnitude have been
/// applied: each set bit multiplies in its table factor and renormalizes.
pub open spec fn tick_fold(t: nat, i: int) -> nat
    decreases i,
{
    if i <= 0 {
        0x100000000000000000000000000000000nat
    } else {
        let prev = tick_fold(t, i - 1);
        if (t / pow2((i - 1) as nat)) % 2 == 1 {
            (prev * tick_mask(i - 1)) / 0x100000000000000000000000000000000nat
        } else {
            prev
        }
    }
}

/// The magnitude of a tick index.
pub open spec fn abs_tick(tick: int) -> nat {
    if tick < 0 {
        (-tick) as nat
    } else {
        tick as nat
    }
}

/// The number `to_sqrt_ratio` returns for an in-range tick: the folded
/// ratio for a non-positive tick, and its full-width reciprocal otherwise.
pub open spec fn sqrt_ratio_spec(tick: int) -> nat {
    let m = tick_fold(abs_tick(tick), 27);
    if tick > 0 {
        0xffffffffffffffffffffffffffffffffffffffffffffffffffffffffffffffffnat / m
    } else {
        m
    }
}

/// The ratio of the lowest tick, `18447191164202170526`.
pub open spec fn min_sqrt_ratio_spec() -> nat {
    447090492618910nat + 0x10000000000000000
}

/// The ratio of the highest tick.
pub open spec fn max_sqrt_ratio_spec() -> nat {
    17284140499546007532nat + 7567914947700146222nat * 0x10000000000000000
        + 18446296994052723738nat * 0x100000000000000000000000000000000nat
}

/// Lowest ratio this module produces, `to_sqrt_ratio(MIN_TICK)` exactly.
pub fn min_sqrt_ratio() -> (r: U256)
    ensures
        r.as_nat() == min_sqrt_ratio_spec(),
{
    U256::from_limbs(447090492618910, 1, 0, 0)
}

/// Highest ratio this module produces, `to_sqrt_ratio(MAX_TICK)` exactly.
pub fn max_sqrt_ratio() -> (r: U256)
    ensures
        r.as_nat() == max_sqrt_ratio_spec(),
{
    U256::from_limbs(17284140499546007532, 7567914947700146222, 18446296994052723738, 0)
}

/// The folded ratio never exceeds its `2^128` starting point: every
/// applied factor is below one.
pub proof fn lemma_tick_fold_le(t: nat, i: int)
    requires
        0 <= i <= 27,
    ensures
        tick_fold(t, i) <= 0x100000000000000000000000000000000nat,
    decreases i,
{
    if i > 0 {
        lemma_tick_fold_le(t, i - 1);
        let prev = tick_fold(t, i - 1);
        if (t / pow2((i - 1) as nat)) % 2 == 1 {
            lemma_tick_mask_bound(i - 1);
            lemma_mul_upper_bound(
                prev as int,
                0x100000000000000000000000000000000nat as int,
                tick_mask(i - 1) as int,
                0x100000000000000000000000000000000nat as int,
            );
            lemma_multiply_divide_le(
                (prev * tick_mask(i - 1)) as int,
                0x100000000000000000000000000000000nat as int,
                0x100000000000000000000000000000000nat as int,
            );
        }
    }
}

/// Every bit of the all-ones tick magnitude is set.
proof fn lemma_allones_bit(j: int)
    requires
        0 <= j < 27,
    ensures
        (0x7ffffffnat / pow2(j as nat)) % 2 == 1,
{
    lemma2_to64();
    lemma_pow2_pos(j as nat);
    lemma_pow2_pos((26 - j) as nat);
    lemma_pow2_adds(j as nat, (27 - j) as nat);
    lemma_pow2_adds((26 - j) as nat, 1);
    // 2^27 - 1 = (2^(27-j) - 1) * 2^j + (2^j - 1)
    let q = pow2((27 - j) as nat) - 1;
    let r = pow2(j as nat) - 1;
    assert((pow2((27 - j) as nat) - 1) * pow2(j as nat)
        == pow2((27 - j) as nat) * pow2(j as nat) - pow2(j as nat)) by (nonlinear_arith);
    lemma_fundamental_div_mod_converse(0x7ffffff, pow2(j as nat) as int, q, r);
    // the quotient 2^(27-j) - 1 is odd
    lemma_fundamental_div_mod_converse(q, 2, pow2((26 - j) as nat) as int - 1, 1);
}

/// Folding any tick magnitude leaves at least what folding every bit does:
/// a skipped factor can only keep the ratio larger.
pub proof fn lemma_tick_fold_min(t: nat, i: int)
    requires
        0 <= i <= 27,
    ensures
        tick_fold(t, i) >= tick_fold(0x7ffffffnat, i),
    decreases i,
{
    if i > 0 {
        lemma_tick_fold_min(t, i - 1);
        let prev = tick_fold(t, i - 1);
        let aprev = tick_fold(0x7ffffffnat, i - 1);
        lemma_allones_bit(i - 1);
        lemma_tick_mask_bound(i - 1);
        if (t / pow2((i - 1) as nat)) % 2 == 1 {
            lemma_mul_inequality(aprev as int, prev as int, tick_mask(i - 1) as int);
            lemma_div_is_ordered(
                (aprev * tick_mask(i - 1)) as int,
                (prev * tick_mask(i - 1)) as int,
                0x100000000000000000000000000000000nat as int,
            );
        } else {
            lemma_mul_upper_bound(
                aprev as int,
                aprev as int,
                tick_mask(i - 1) as int,
                0x100000000000000000000000000000000nat as int - 1,
            );
            lemma_multiply_divide_le(
                (aprev * tick_mask(i - 1)) as int,
                0x100000000000000000000000000000000nat as int,
                aprev as int,
            );
        }
    }
}

/// The all-ones fold evaluates to a small positive number.
proof fn lemma_allones_fold_value()
    ensures
        tick_fold(134217727nat, 27) == 2436940427nat,
{
    lemma2_to64();
    assert(tick_fold(134217727nat, 0) == 0x100000000000000000000000000000000nat);
    assert((134217727nat / pow2(0)) % 2 == 1);
    assert((340282366920938463463374607431768211456nat * (8987818235631183931nat + 18446734850344432284nat * 0x10000000000000000))
        / 0x100000000000000000000000000000000nat == 340282196779882608775400081051345954875nat) by (nonlinear_arith);
    assert(tick_fold(134217727nat, 1) == 340282196779882608775400081051345954875nat);
    assert((134217727nat / pow2(1)) % 2 == 1);
    assert((340282196779882608775400081051345954875nat * (1390292817054524432nat + 18446725626983924632nat * 0x10000000000000000))
        / 0x100000000000000000000000000000000nat == 340281856498026110749289331762014192861nat) by (nonlinear_arith);
    assert(tick_fold(134217727nat, 2) == 340281856498026110749289331762014192861nat);
    assert((134217727nat / pow2(2)) % 2 == 1);
    assert((340281856498026110749289331762014192861nat * (6106104599673403081nat + 18446707180276744355nat * 0x10000000000000000))
        / 0x100000000000000000000000000000000nat == 340281175935333958905436186930734895204nat) by (nonlinear_arith);
    assert(tick_fold(134217727nat, 3) == 340281175935333958905436186930734895204nat);
    assert((134217727nat / pow2(3)) % 2 == 1);
    assert((340281175935333958905436186930734895204nat * (11001558419889720088nat + 18446670286917723849nat * 0x10000000000000000))
        / 0x100000000000000000000000000000000nat == 340279814814033022523342295890464375444nat) by (nonlinear_arith);
    assert(tick_fold(134217727nat, 4) == 340279814814033022523342295890464375444nat);
    assert((134217727nat / pow2(4)) % 2 == 1);
    assert((340279814814033022523342295890464375444nat * (11758220747761187196nat + 18446596500421042512nat * 0x10000000000000000))
        / 0x100000000000000000000000000000000nat == 340277092587764542759001812348362473063nat) by (nonlinear_arith);
    assert(tick_fold(134217727nat, 5) == 340277092587764542759001812348362473063nat);
    assert((134217727nat / pow2(5)) % 2 == 1);
    assert((340277092587764542759001812348362473063nat * (13410380190397192564nat + 18446448928313114404nat * 0x10000000000000000))
        / 0x100000000000000000000000000000000nat == 340271648200560545453465003253954851022nat) by (nonlinear_arith);
    assert(tick_fold(134217727nat, 6) == 340271648200560545453465003253954851022nat);
    assert((134217727nat / pow2(6)) % 2 == 1);
    assert((340271648200560545453465003253954851022nat * (16901990496071521224nat + 18446153787638963396nat * 0x10000000000000000))
        / 0x100000000000000000000000000000000nat == 340260759687479521598180123439859458173nat) by (nonlinear_arith);
    assert(tick_fold(134217727nat, 7) == 340260759687479521598180123439859458173nat);
    assert((134217727nat / pow2(7)) % 2 == 1);
    assert((340260759687479521598180123439859458173nat * (2628633744169581664nat + 18445563520457217769nat * 0x10000000000000000))
        / 0x100000000000000000000000000000000nat == 340238983706586332987191465977601767188nat) by (nonlinear_arith);
    assert(tick_fold(134217727nat, 8) == 340238983706586332987191465977601767188nat);
    assert((134217727nat / pow2(8)) % 2 == 1);
    assert((340238983706586332987191465977601767188nat * (16741406942698519205nat + 18444383042757836574nat * 0x10000000000000000))
        / 0x100000000000000000000000000000000nat == 340195435925563219505687448191576076169nat) by (nonlinear_arith);
    assert(tick_fold(134217727nat, 9) == 340195435925563219505687448191576076169nat);
    assert((134217727nat / pow2(9)) % 2 == 1);
    assert((340195435925563219505687448191576076169nat * (8444515413536692068nat + 18442022313998591526nat * 0x10000000000000000))
        / 0x100000000000000000000000000000000nat == 340108357084072965903871525266540734770nat) by (nonlinear_arith);
    assert(tick_fold(134217727nat, 10) == 340108357084072965903871525266540734770nat);
    assert((134217727nat / pow2(10)) % 2 == 1);
    assert((340108357084072965903871525266540734770nat * (9306074004969915320nat + 18437301762902803792nat * 0x10000000000000000))
        / 0x100000000000000000000000000000000nat == 339934266263344492982008540804890786596nat) by (nonlinear_arith);
    assert(tick_fold(134217727nat, 11) == 339934266263344492982008540804890786596nat);
    assert((134217727nat / pow2(11)) % 2 == 1);
    assert((339934266263344492982008540804890786596nat * (1215727185815661655nat + 18427864285319361663nat * 0x10000000000000000))
        / 0x100000000000000000000000000000000nat == 339586351911197478817616121489933683669nat) by (nonlinear_arith);
    assert(tick_fold(134217727nat, 12) == 339586351911197478817616121489933683669nat);
    assert((134217727nat / pow2(12)) % 2 == 1);
    assert((339586351911197478817616121489933683669nat * (4836152305972799785nat + 18409003819927758022nat * 0x10000000000000000))
        / 0x100000000000000000000000000000000nat == 338891591087783246362593815124690310237nat) by (nonlinear_arith);
    assert(tick_fold(134217727nat, 13) == 338891591087783246362593815124690310237nat);
    assert((134217727nat / pow2(13)) % 2 == 1);
    assert((338891591087783246362593815124690310237nat * (465769373252535706nat + 18371340779054097314nat * 0x10000000000000000))
        / 0x100000000000000000000000000000000nat == 337506330773174829042221009330163251561nat) by (nonlinear_arith);
    assert(tick_fold(134217727nat, 14) == 337506330773174829042221009330163251561nat);
    assert((134217727nat / pow2(14)) % 2 == 1);
    assert((337506330773174829042221009330163251561nat * (11626538800767970419nat + 18296245704473805246nat * 0x10000000000000000))
        / 0x100000000000000000000000000000000nat == 334752774254737765215755416017488792416nat) by (nonlinear_arith);
    assert(tick_fold(134217727nat, 15) == 334752774254737765215755416017488792416nat);
    assert((134217727nat / pow2(15)) % 2 == 1);
    assert((334752774254737765215755416017488792416nat * (13511344043162985703nat + 18146975181141493926nat * 0x10000000000000000))
        / 0x100000000000000000000000000000000nat == 329312872881278304729104145439205318258nat) by (nonlinear_arith);
    assert(tick_fold(134217727nat, 16) == 329312872881278304729104145439205318258nat);
    assert((134217727nat / pow2(16)) % 2 == 1);
    assert((329312872881278304729104145439205318258nat * (17542275577360126846nat + 17852077684229624197nat * 0x10000000000000000))
        / 0x100000000000000000000000000000000nat == 318696836992068326715830506427204720183nat) by (nonlinear_arith);
    assert(tick_fold(134217727nat, 17) == 318696836992068326715830506427204720183nat);
    assert((134217727nat / pow2(17)) % 2 == 1);
    assert((318696836992068326715830506427204720183nat * (9306072323298629247nat + 17276581513264360642nat * 0x10000000000000000))
        / 0x100000000000000000000000000000000nat == 298480418024564947766175119450632980944nat) by (nonlinear_arith);
    assert(tick_fold(134217727nat, 18) == 298480418024564947766175119450632980944nat);
    assert((134217727nat / pow2(18)) % 2 == 1);
    assert((298480418024564947766175119450632980944nat * (8354374849381600509nat + 16180647793008867682nat * 0x10000000000000000))
        / 0x100000000000000000000000000000000nat == 261813493908051514589379308818992583766nat) by (nonlinear_arith);
    assert(tick_fold(134217727nat, 19) == 261813493908051514589379308818992583766nat);
    assert((134217727nat / pow2(19)) % 2 == 1);
    assert((261813493908051514589379308818992583766nat * (1840363272369915117nat + 14192930847592841948nat * 0x10000000000000000))
        / 0x100000000000000000000000000000000nat == 201439386764170309332580809386678336911nat) by (nonlinear_arith);
    assert(tick_fold(134217727nat, 20) == 201439386764170309332580809386678336911nat);
    assert((134217727nat / pow2(20)) % 2 == 1);
    assert((201439386764170309332580809386678336911nat * (16571633202497044730nat + 10920045577671636999nat * 0x10000000000000000))
        / 0x100000000000000000000000000000000nat == 119247455042108679525593918915931310058nat) by (nonlinear_arith);
    assert(tick_fold(134217727nat, 21) == 119247455042108679525593918915931310058nat);
    assert((134217727nat / pow2(21)) % 2 == 1);
    assert((119247455042108679525593918915931310058nat * (7981864148337927882nat + 6464414258794766152nat * 0x10000000000000000))
        / 0x100000000000000000000000000000000nat == 41788672603629716935446173663881867212nat) by (nonlinear_arith);
    assert(tick_fold(134217727nat, 22) == 41788672603629716935446173663881867212nat);
    assert((134217727nat / pow2(22)) % 2 == 1);
    assert((41788672603629716935446173663881867212nat * (4190795360855086819nat + 2265367348423649960nat * 0x10000000000000000))
        / 0x100000000000000000000000000000000nat == 5131891789247968844106968332600966601nat) by (nonlinear_arith);
    assert(tick_fold(134217727nat, 23) == 5131891789247968844106968332600966601nat);
    assert((134217727nat / pow2(23)) % 2 == 1);
    assert((5131891789247968844106968332600966601nat * (14440677137918516476nat + 278200272243057167nat * 0x10000000000000000))
        / 0x100000000000000000000000000000000nat == 77395430173797188073007962263558059nat) by (nonlinear_arith);
    assert(tick_fold(134217727nat, 24) == 77395430173797188073007962263558059nat);
    assert((134217727nat / pow2(24)) % 2 == 1);
    assert((77395430173797188073007962263558059nat * (11954280435123913168nat + 4195612578938288nat * 0x10000000000000000))
        / 0x100000000000000000000000000000000nat == 17603173714125453270011527355974nat) by (nonlinear_arith);
    assert(tick_fold(134217727nat, 25) == 17603173714125453270011527355974nat);
    assert((134217727nat / pow2(25)) % 2 == 1);
    assert((17603173714125453270011527355974nat * (1943989925737446246nat + 954269482040nat * 0x10000000000000000))
        / 0x100000000000000000000000000000000nat == 910630699668099359672429nat) by (nonlinear_arith);
    assert(tick_fold(134217727nat, 26) == 910630699668099359672429nat);
    assert((134217727nat / pow2(26)) % 2 == 1);
    assert((910630699668099359672429nat * (6723154418996326713nat + 49365nat * 0x10000000000000000))
        / 0x100000000000000000000000000000000nat == 2436940427nat) by (nonlinear_arith);
    assert(tick_fold(134217727nat, 27) == 2436940427nat);
}

/// The fold of the largest tick magnitude, the lowest ratio produced.
proof fn lemma_max_tick_fold_value()
    ensures
        tick_fold(88722835nat, 27) == 18447191164202170526nat,
{
    lemma2_to64();
    assert(tick_fold(88722835nat, 0) == 0x100000000000000000000000000000000nat);
    assert((88722835nat / pow2(0)) % 2 == 1);
    assert((340282366920938463463374607431768211456nat * (8987818235631183931nat + 18446734850344432284nat * 0x10000000000000000))
        / 0x100000000000000000000000000000000nat == 340282196779882608775400081051345954875nat) by (nonlinear_arith);
    assert(tick_fold(88722835nat, 1) == 340282196779882608775400081051345954875nat);
    assert((88722835nat / pow2(1)) % 2 == 1);
    assert((340282196779882608775400081051345954875nat * (1390292817054524432nat + 18446725626983924632nat * 0x10000000000000000))
        / 0x100000000000000000000000000000000nat == 340281856498026110749289331762014192861nat) by (nonlinear_arith);
    assert(tick_fold(88722835nat, 2) == 340281856498026110749289331762014192861nat);
    assert((88722835nat / pow2(2)) % 2 == 0);
    assert(tick_fold(88722835nat, 3) == 340281856498026110749289331762014192861nat);
    assert((88722835nat / pow2(3)) % 2 == 0);
    assert(tick_fold(88722835nat, 4) == 340281856498026110749289331762014192861nat);
    assert((88722835nat / pow2(4)) % 2 == 1);
    assert((340281856498026110749289331762014192861nat * (11758220747761187196nat + 18446596500421042512nat * 0x10000000000000000))
        / 0x100000000000000000000000000000000nat == 340279134255424232540621790414342924968nat) by (nonlinear_arith);
    assert(tick_fold(88722835nat, 5) == 340279134255424232540621790414342924968nat);
    assert((88722835nat / pow2(5)) % 2 == 0);
    assert(tick_fold(88722835nat, 6) == 340279134255424232540621790414342924968nat);
    assert((88722835nat / pow2(6)) % 2 == 0);
    assert(tick_fold(88722835nat, 7) == 340279134255424232540621790414342924968nat);
    assert((88722835nat / pow2(7)) % 2 == 1);
    assert((340279134255424232540621790414342924968nat * (2628633744169581664nat + 18445563520457217769nat * 0x10000000000000000))
        / 0x100000000000000000000000000000000nat == 340257357098596913728651669843006424734nat) by (nonlinear_arith);
    assert(tick_fold(88722835nat, 8) == 340257357098596913728651669843006424734nat);
    assert((88722835nat / pow2(8)) % 2 == 1);
    assert((340257357098596913728651669843006424734nat * (16741406942698519205nat + 18444383042757836574nat * 0x10000000000000000))
        / 0x100000000000000000000000000000000nat == 340213806965931307044202642783663485302nat) by (nonlinear_arith);
    assert(tick_fold(88722835nat, 9) == 340213806965931307044202642783663485302nat);
    assert((88722835nat / pow2(9)) % 2 == 0);
    assert(tick_fold(88722835nat, 10) == 340213806965931307044202642783663485302nat);
    assert((88722835nat / pow2(10)) % 2 == 1);
    assert((340213806965931307044202642783663485302nat * (9306074004969915320nat + 18437301762902803792nat * 0x10000000000000000))
        / 0x100000000000000000000000000000000nat == 340039662168709472328372856691918870780nat) by (nonlinear_arith);
    assert(tick_fold(88722835nat, 11) == 340039662168709472328372856691918870780nat);
    assert((88722835nat / pow2(11)) % 2 == 1);
    assert((340039662168709472328372856691918870780nat * (1215727185815661655nat + 18427864285319361663nat * 0x10000000000000000))
        / 0x100000000000000000000000000000000nat == 339691639946448223790787826141031224950nat) by (nonlinear_arith);
    assert(tick_fold(88722835nat, 12) == 339691639946448223790787826141031224950nat);
    assert((88722835nat / pow2(12)) % 2 == 0);
    assert(tick_fold(88722835nat, 13) == 339691639946448223790787826141031224950nat);
    assert((88722835nat / pow2(13)) % 2 == 0);
    assert(tick_fold(88722835nat, 14) == 339691639946448223790787826141031224950nat);
    assert((88722835nat / pow2(14)) % 2 == 1);
    assert((339691639946448223790787826141031224950nat * (11626538800767970419nat + 18296245704473805246nat * 0x10000000000000000))
        / 0x100000000000000000000000000000000nat == 336920254511128082845940176874285709796nat) by (nonlinear_arith);
    assert(tick_fold(88722835nat, 15) == 336920254511128082845940176874285709796nat);
    assert((88722835nat / pow2(15)) % 2 == 1);
    assert((336920254511128082845940176874285709796nat * (13511344043162985703nat + 18146975181141493926nat * 0x10000000000000000))
        / 0x100000000000000000000000000000000nat == 331445130490597409697631165061720061376nat) by (nonlinear_arith);
    assert(tick_fold(88722835nat, 16) == 331445130490597409697631165061720061376nat);
    assert((88722835nat / pow2(16)) % 2 == 1);
    assert((331445130490597409697631165061720061376nat * (17542275577360126846nat + 17852077684229624197nat * 0x10000000000000000))
        / 0x100000000000000000000000000000000nat == 320760357163013034119801278984438962475nat) by (nonlinear_arith);
    assert(tick_fold(88722835nat, 17) == 320760357163013034119801278984438962475nat);
    assert((88722835nat / pow2(17)) % 2 == 0);
    assert(tick_fold(88722835nat, 18) == 320760357163013034119801278984438962475nat);
    assert((88722835nat / pow2(18)) % 2 == 0);
    assert(tick_fold(88722835nat, 19) == 320760357163013034119801278984438962475nat);
    assert((88722835nat / pow2(19)) % 2 == 1);
    assert((320760357163013034119801278984438962475nat * (1840363272369915117nat + 14192930847592841948nat * 0x10000000000000000))
        / 0x100000000000000000000000000000000nat == 246793122389122703780181660633821545553nat) by (nonlinear_arith);
    assert(tick_fold(88722835nat, 20) == 246793122389122703780181660633821545553nat);
    assert((88722835nat / pow2(20)) % 2 == 0);
    assert(tick_fold(88722835nat, 21) == 246793122389122703780181660633821545553nat);
    assert((88722835nat / pow2(21)) % 2 == 0);
    assert(tick_fold(88722835nat, 22) == 246793122389122703780181660633821545553nat);
    assert((88722835nat / pow2(22)) % 2 == 1);
    assert((246793122389122703780181660633821545553nat * (4190795360855086819nat + 2265367348423649960nat * 0x10000000000000000))
        / 0x100000000000000000000000000000000nat == 30307629305306044977668894564048244140nat) by (nonlinear_arith);
    assert(tick_fold(88722835nat, 23) == 30307629305306044977668894564048244140nat);
    assert((88722835nat / pow2(23)) % 2 == 0);
    assert(tick_fold(88722835nat, 24) == 30307629305306044977668894564048244140nat);
    assert((88722835nat / pow2(24)) % 2 == 1);
    assert((30307629305306044977668894564048244140nat * (11954280435123913168nat + 4195612578938288nat * 0x10000000000000000))
        / 0x100000000000000000000000000000000nat == 6893307037981238209463219503365059nat) by (nonlinear_arith);
    assert(tick_fold(88722835nat, 25) == 6893307037981238209463219503365059nat);
    assert((88722835nat / pow2(25)) % 2 == 0);
    assert(tick_fold(88722835nat, 26) == 6893307037981238209463219503365059nat);
    assert((88722835nat / pow2(26)) % 2 == 1);
    assert((6893307037981238209463219503365059nat * (6723154418996326713nat + 49365nat * 0x10000000000000000))
        / 0x100000000000000000000000000000000nat == 18447191164202170526nat) by (nonlinear_arith);
    assert(tick_fold(88722835nat, 27) == 18447191164202170526nat);
}

/// The fold of magnitude one million.
proof fn lemma_fold_value_1000000()
    ensures
        tick_fold(1000000nat, 27) == 206391740095027370700312310531588921767nat,
{
    lemma2_to64();
    assert(tick_fold(1000000nat, 0) == 0x100000000000000000000000000000000nat);
    assert((1000000nat / pow2(0)) % 2 == 0);
    assert(tick_fold(1000000nat, 1) == 340282366920938463463374607431768211456nat);
    assert((1000000nat / pow2(1)) % 2 == 0);
    assert(tick_fold(1000000nat, 2) == 340282366920938463463374607431768211456nat);
    assert((1000000nat / pow2(2)) % 2 == 0);
    assert(tick_fold(1000000nat, 3) == 340282366920938463463374607431768211456nat);
    assert((1000000nat / pow2(3)) % 2 == 0);
    assert(tick_fold(1000000nat, 4) == 340282366920938463463374607431768211456nat);
    assert((1000000nat / pow2(4)) % 2 == 0);
    assert(tick_fold(1000000nat, 5) == 340282366920938463463374607431768211456nat);
    assert((1000000nat / pow2(5)) % 2 == 0);
    assert(tick_fold(1000000nat, 6) == 340282366920938463463374607431768211456nat);
    assert((1000000nat / pow2(6)) % 2 == 1);
    assert((340282366920938463463374607431768211456nat * (16901990496071521224nat + 18446153787638963396nat * 0x10000000000000000))
        / 0x100000000000000000000000000000000nat == 340271478064864046934932689706268169160nat) by (nonlinear_arith);
    assert(tick_fold(1000000nat, 7) == 340271478064864046934932689706268169160nat);
    assert((1000000nat / pow2(7)) % 2 == 0);
    assert(tick_fold(1000000nat, 8) == 340271478064864046934932689706268169160nat);
    assert((1000000nat / pow2(8)) % 2 == 0);
    assert(tick_fold(1000000nat, 9) == 340271478064864046934932689706268169160nat);
    assert((1000000nat / pow2(9)) % 2 == 1);
    assert((340271478064864046934932689706268169160nat * (8444515413536692068nat + 18442022313998591526nat * 0x10000000000000000))
        / 0x100000000000000000000000000000000nat == 340184379759087399422193236678636487487nat) by (nonlinear_arith);
    assert(tick_fold(1000000nat, 10) == 340184379759087399422193236678636487487nat);
    assert((1000000nat / pow2(10)) % 2 == 0);
    assert(tick_fold(1000000nat, 11) == 340184379759087399422193236678636487487nat);
    assert((1000000nat / pow2(11)) % 2 == 0);
    assert(tick_fold(1000000nat, 12) == 340184379759087399422193236678636487487nat);
    assert((1000000nat / pow2(12)) % 2 == 0);
    assert(tick_fold(1000000nat, 13) == 340184379759087399422193236678636487487nat);
    assert((1000000nat / pow2(13)) % 2 == 0);
    assert(tick_fold(1000000nat, 14) == 340184379759087399422193236678636487487nat);
    assert((1000000nat / pow2(14)) % 2 == 1);
    assert((340184379759087399422193236678636487487nat * (11626538800767970419nat + 18296245704473805246nat * 0x10000000000000000))
        / 0x100000000000000000000000000000000nat == 337408974289772998664518635681385471866nat) by (nonlinear_arith);
    assert(tick_fold(1000000nat, 15) == 337408974289772998664518635681385471866nat);
    assert((1000000nat / pow2(15)) % 2 == 0);
    assert(tick_fold(1000000nat, 16) == 337408974289772998664518635681385471866nat);
    assert((1000000nat / pow2(16)) % 2 == 1);
    assert((337408974289772998664518635681385471866nat * (17542275577360126846nat + 17852077684229624197nat * 0x10000000000000000))
        / 0x100000000000000000000000000000000nat == 326531944949674604550616210857872331641nat) by (nonlinear_arith);
    assert(tick_fold(1000000nat, 17) == 326531944949674604550616210857872331641nat);
    assert((1000000nat / pow2(17)) % 2 == 1);
    assert((326531944949674604550616210857872331641nat * (9306072323298629247nat + 17276581513264360642nat * 0x10000000000000000))
        / 0x100000000000000000000000000000000nat == 305818508733360154426176193009454087588nat) by (nonlinear_arith);
    assert(tick_fold(1000000nat, 18) == 305818508733360154426176193009454087588nat);
    assert((1000000nat / pow2(18)) % 2 == 1);
    assert((305818508733360154426176193009454087588nat * (8354374849381600509nat + 16180647793008867682nat * 0x10000000000000000))
        / 0x100000000000000000000000000000000nat == 268250134474957205267927613803662809508nat) by (nonlinear_arith);
    assert(tick_fold(1000000nat, 19) == 268250134474957205267927613803662809508nat);
    assert((1000000nat / pow2(19)) % 2 == 1);
    assert((268250134474957205267927613803662809508nat * (1840363272369915117nat + 14192930847592841948nat * 0x10000000000000000))
        / 0x100000000000000000000000000000000nat == 206391740095027370700312310531588921767nat) by (nonlinear_arith);
    assert(tick_fold(1000000nat, 20) == 206391740095027370700312310531588921767nat);
    assert((1000000nat / pow2(20)) % 2 == 0);
    assert(tick_fold(1000000nat, 21) == 206391740095027370700312310531588921767nat);
    assert((1000000nat / pow2(21)) % 2 == 0);
    assert(tick_fold(1000000nat, 22) == 206391740095027370700312310531588921767nat);
    assert((1000000nat / pow2(22)) % 2 == 0);
    assert(tick_fold(1000000nat, 23) == 206391740095027370700312310531588921767nat);
    assert((1000000nat / pow2(23)) % 2 == 0);
    assert(tick_fold(1000000nat, 24) == 206391740095027370700312310531588921767nat);
    assert((1000000nat / pow2(24)) % 2 == 0);
    assert(tick_fold(1000000nat, 25) == 206391740095027370700312310531588921767nat);
    assert((1000000nat / pow2(25)) % 2 == 0);
    assert(tick_fold(1000000nat, 26) == 206391740095027370700312310531588921767nat);
    assert((1000000nat / pow2(26)) % 2 == 0);
    assert(tick_fold(1000000nat, 27) == 206391740095027370700312310531588921767nat);
}

/// The fold of magnitude ten million.
proof fn lemma_fold_value_10000000()
    ensures
        tick_fold(10000000nat, 27) == 2292810285051363400276741638672651165nat,
{
    lemma2_to64();
    assert(tick_fold(10000000nat, 0) == 0x100000000000000000000000000000000nat);
    assert((10000000nat / pow2(0)) % 2 == 0);
    assert(tick_fold(10000000nat, 1) == 340282366920938463463374607431768211456nat);
    assert((10000000nat / pow2(1)) % 2 == 0);
    assert(tick_fold(10000000nat, 2) == 340282366920938463463374607431768211456nat);
    assert((10000000nat / pow2(2)) % 2 == 0);
    assert(tick_fold(10000000nat, 3) == 340282366920938463463374607431768211456nat);
    assert((10000000nat / pow2(3)) % 2 == 0);
    assert(tick_fold(10000000nat, 4) == 340282366920938463463374607431768211456nat);
    assert((10000000nat / pow2(4)) % 2 == 0);
    assert(tick_fold(10000000nat, 5) == 340282366920938463463374607431768211456nat);
    assert((10000000nat / pow2(5)) % 2 == 0);
    assert(tick_fold(10000000nat, 6) == 340282366920938463463374607431768211456nat);
    assert((10000000nat / pow2(6)) % 2 == 0);
    assert(tick_fold(10000000nat, 7) == 340282366920938463463374607431768211456nat);
    assert((10000000nat / pow2(7)) % 2 == 1);
    assert((340282366920938463463374607431768211456nat * (2628633744169581664nat + 18445563520457217769nat * 0x10000000000000000))
        / 0x100000000000000000000000000000000nat == 340260589557227275536970734808027446368nat) by (nonlinear_arith);
    assert(tick_fold(10000000nat, 8) == 340260589557227275536970734808027446368nat);
    assert((10000000nat / pow2(8)) % 2 == 0);
    assert(tick_fold(10000000nat, 9) == 340260589557227275536970734808027446368nat);
    assert((10000000nat / pow2(9)) % 2 == 1);
    assert((340260589557227275536970734808027446368nat * (8444515413536692068nat + 18442022313998591526nat * 0x10000000000000000))
        / 0x100000000000000000000000000000000nat == 340173494038550425492693320889169630687nat) by (nonlinear_arith);
    assert(tick_fold(10000000nat, 10) == 340173494038550425492693320889169630687nat);
    assert((10000000nat / pow2(10)) % 2 == 1);
    assert((340173494038550425492693320889169630687nat * (9306074004969915320nat + 18437301762902803792nat * 0x10000000000000000))
        / 0x100000000000000000000000000000000nat == 339999369876254100620063989625423938431nat) by (nonlinear_arith);
    assert(tick_fold(10000000nat, 11) == 339999369876254100620063989625423938431nat);
    assert((10000000nat / pow2(11)) % 2 == 0);
    assert(tick_fold(10000000nat, 12) == 339999369876254100620063989625423938431nat);
    assert((10000000nat / pow2(12)) % 2 == 1);
    assert((339999369876254100620063989625423938431nat * (4836152305972799785nat + 18409003819927758022nat * 0x10000000000000000))
        / 0x100000000000000000000000000000000nat == 339303764058039951568513325890672348053nat) by (nonlinear_arith);
    assert(tick_fold(10000000nat, 13) == 339303764058039951568513325890672348053nat);
    assert((10000000nat / pow2(13)) % 2 == 0);
    assert(tick_fold(10000000nat, 14) == 339303764058039951568513325890672348053nat);
    assert((10000000nat / pow2(14)) % 2 == 0);
    assert(tick_fold(10000000nat, 15) == 339303764058039951568513325890672348053nat);
    assert((10000000nat / pow2(15)) % 2 == 1);
    assert((339303764058039951568513325890672348053nat * (13511344043162985703nat + 18146975181141493926nat * 0x10000000000000000))
        / 0x100000000000000000000000000000000nat == 333789906805539010134754366135308682622nat) by (nonlinear_arith);
    assert(tick_fold(10000000nat, 16) == 333789906805539010134754366135308682622nat);
    assert((10000000nat / pow2(16)) % 2 == 0);
    assert(tick_fold(10000000nat, 17) == 333789906805539010134754366135308682622nat);
    assert((10000000nat / pow2(17)) % 2 == 0);
    assert(tick_fold(10000000nat, 18) == 333789906805539010134754366135308682622nat);
    assert((10000000nat / pow2(18)) % 2 == 0);
    assert(tick_fold(10000000nat, 19) == 333789906805539010134754366135308682622nat);
    assert((10000000nat / pow2(19)) % 2 == 1);
    assert((333789906805539010134754366135308682622nat * (1840363272369915117nat + 14192930847592841948nat * 0x10000000000000000))
        / 0x100000000000000000000000000000000nat == 256818062091907943338155208857151489993nat) by (nonlinear_arith);
    assert(tick_fold(10000000nat, 20) == 256818062091907943338155208857151489993nat);
    assert((10000000nat / pow2(20)) % 2 == 1);
    assert((256818062091907943338155208857151489993nat * (16571633202497044730nat + 10920045577671636999nat * 0x10000000000000000))
        / 0x100000000000000000000000000000000nat == 152030349204545276119903385682690214708nat) by (nonlinear_arith);
    assert(tick_fold(10000000nat, 21) == 152030349204545276119903385682690214708nat);
    assert((10000000nat / pow2(21)) % 2 == 0);
    assert(tick_fold(10000000nat, 22) == 152030349204545276119903385682690214708nat);
    assert((10000000nat / pow2(22)) % 2 == 0);
    assert(tick_fold(10000000nat, 23) == 152030349204545276119903385682690214708nat);
    assert((10000000nat / pow2(23)) % 2 == 1);
    assert((152030349204545276119903385682690214708nat * (14440677137918516476nat + 278200272243057167nat * 0x10000000000000000))
        / 0x100000000000000000000000000000000nat == 2292810285051363400276741638672651165nat) by (nonlinear_arith);
    assert(tick_fold(10000000nat, 24) == 2292810285051363400276741638672651165nat);
    assert((10000000nat / pow2(24)) % 2 == 0);
    assert(tick_fold(10000000nat, 25) == 2292810285051363400276741638672651165nat);
    assert((10000000nat / pow2(25)) % 2 == 0);
    assert(tick_fold(10000000nat, 26) == 2292810285051363400276741638672651165nat);
    assert((10000000nat / pow2(26)) % 2 == 0);
    assert(tick_fold(10000000nat, 27) == 2292810285051363400276741638672651165nat);
}

/// Any fold stays positive, so the reciprocal division is well defined.
pub proof fn lemma_tick_fold_pos(t: nat)
    ensures
        tick_fold(t, 27) >= 2436940427,
{
    lemma_tick_fold_min(t, 27);
    lemma_allones_fold_value();
}

/// The named boundary ratios are exactly the images of the boundary ticks.
pub proof fn lemma_bounds_are_tick_images()
    ensures
        sqrt_ratio_spec(MIN_TICK as int) == min_sqrt_ratio_spec(),
        sqrt_ratio_spec(MAX_TICK as int) == max_sqrt_ratio_spec(),
{
    lemma_max_tick_fold_value();
    assert(min_sqrt_ratio_spec() == 18447191164202170526nat);
    assert(0xffffffffffffffffffffffffffffffffffffffffffffffffffffffffffffffffnat / 18447191164202170526nat == 6276949602062853172742588666638147158083741740262337144812nat) by (nonlinear_arith);
    assert(max_sqrt_ratio_spec() == 6276949602062853172742588666638147158083741740262337144812nat) by (nonlinear_arith);
}

/// Four fixed points of the conversion, one per direction and magnitude
/// band: the exact ratios of ticks of magnitude one and ten million.
pub proof fn lemma_tick_fixtures()
    ensures
        sqrt_ratio_spec(1000000) == 561030636129153856592777659729523183729nat,
        sqrt_ratio_spec(10000000) == 50502254805927926084427918474025309948677nat,
        sqrt_ratio_spec(-1000000) == 206391740095027370700312310531588921767nat,
        sqrt_ratio_spec(-10000000) == 2292810285051363400276741638672651165nat,
{
    lemma_fold_value_1000000();
    lemma_fold_value_10000000();
    assert(0xffffffffffffffffffffffffffffffffffffffffffffffffffffffffffffffffnat / 206391740095027370700312310531588921767nat == 561030636129153856592777659729523183729nat) by (nonlinear_arith);
    assert(0xffffffffffffffffffffffffffffffffffffffffffffffffffffffffffffffffnat / 2292810285051363400276741638672651165nat == 50502254805927926084427918474025309948677nat) by (nonlinear_arith);
}

/// Converts a tick index to its Q128 square-root price ratio. Returns
/// `None` exactly when the tick lies outside `[MIN_TICK, MAX_TICK]`, and
/// otherwise the number `sqrt_ratio_spec` names.
pub fn to_sqrt_ratio(tick: i32) -> (r: Option<U256>)
    ensures
        (r is Some) <==> (MIN_TICK <= tick && tick <= MAX_TICK),
        r matches Some(v) ==> v.as_nat() == sqrt_ratio_spec(tick as int),
{
    if tick < MIN_TICK || tick > MAX_TICK {
        return None;
    }
    let tick_abs: u32 = if tick < 0 {
        (-tick) as u32
    } else {
        tick as u32
    };
    let ghost t: nat = abs_tick(tick as int);
    proof {
        lemma2_to64();
        lemma_pow2_literals();
    }
    let mut ratio = U256::from_limbs(0, 0, 1, 0);
    let mut rem: u32 = tick_abs;
    let mut i: usize = 0;
    while i < 27
        invariant
            i <= 27,
            t == abs_tick(tick as int),
            rem == t / pow2(i as nat),
            ratio.as_nat() == tick_fold(t, i as int),
            ratio.as_nat() <= 0x100000000000000000000000000000000nat,
        decreases 27 - i,
    {
        proof {
            lemma_pow2_literals();
        }
        if rem % 2 == 1 {
            let m = tick_mask_limbs(i);
            proof {
                lemma_tick_mask_bound(i as int);
                assert(ratio.as_nat() * m.as_nat()
                    < 0x10000000000000000000000000000000000000000000000000000000000000000nat)
                    by (nonlinear_arith)
                    requires
                        ratio.as_nat() <= 0x100000000000000000000000000000000nat,
                        m.as_nat() < 0x100000000000000000000000000000000nat,
                ;
            }
            let prod = u256_mul(&ratio, &m);
            ratio = u256_shr(&prod, 128);
            proof {
                lemma_tick_fold_le(t, i as int + 1);
            }
        }
        rem = rem / 2;
        proof {
            lemma2_to64();
            lemma_pow2_pos(i as nat);
            lemma_div_denominator(t as int, pow2(i as nat) as int, 2);
            lemma_pow2_adds(i as nat, 1);
        }
        i = i + 1;
    }
    if tick > 0 {
        proof {
            lemma_tick_fold_pos(t);
        }
        let umax = U256::from_limbs(
            0xffffffffffffffff,
            0xffffffffffffffff,
            0xffffffffffffffff,
            0xffffffffffffffff,
        );
        proof {
            assert(0xffffffffffffffffnat + 0xffffffffffffffffnat * 0x10000000000000000
                + 0xffffffffffffffffnat * 0x100000000000000000000000000000000nat
                + 0xffffffffffffffffnat * 0x1000000000000000000000000000000000000000000000000nat
                == 0xffffffffffffffffffffffffffffffffffffffffffffffffffffffffffffffffnat) by (nonlinear_arith);
        }
        ratio = u256_div(&umax, &ratio);
    }
    Some(ratio)
}

} // verus!
