//! A fixed-point base-2 exponential in Q64.64.
//!
//! `exp2(x)` evaluates `2^(x / 2^64)` scaled by `2^64`, by multiplying a
//! `2^127`-scaled accumulator with one precomputed factor `2^(2^-k)` per
//! set bit of the fractional part, then shifting by the integer part.
use vstd::prelude::*;

verus! {

use vstd::arithmetic::power2::pow2;
use vstd::arithmetic::power2::lemma2_to64;
use vstd::arithmetic::power2::lemma2_to64_rest;
use vstd::arithmetic::power2::lemma_pow2_adds;
use vstd::arithmetic::power2::lemma_pow2_subtracts;
use vstd::arithmetic::power2::lemma_pow2_pos;
use vstd::arithmetic::power2::lemma_pow2_strictly_increases;
use vstd::arithmetic::div_mod::lemma_fundamental_div_mod;
use vstd::arithmetic::div_mod::lemma_fundamental_div_mod_converse;
use vstd::arithmetic::div_mod::lemma_div_is_ordered;
use vstd::arithmetic::div_mod::lemma_div_is_ordered_by_denominator;
use vstd::arithmetic::div_mod::lemma_div_nonincreasing;
use vstd::arithmetic::div_mod::lemma_div_multiples_vanish;
use vstd::arithmetic::div_mod::lemma_multiply_divide_lt;
use vstd::arithmetic::mul::lemma_mul_inequality;
use crate::wide::U256;
use crate::wide::u256_mul;
use crate::wide::u256_shr;
use crate::wide::lemma_pow2_literals;

/// Factor `j` of the exponential table: `2^(2^-(j+1))` scaled by `2^128`,
/// applied for bit `63 - j` of the fractional part.
pub open spec fn exp_mask(j: int) -> nat {
    if j == 0 {
        12896923290648804670nat + 7640891576956012808nat * 0x10000000000000000 + 0x100000000000000000000000000000000nat
    } else if j == 1 {
        10185530680776453612nat + 3490255227380126430nat * 0x10000000000000000 + 0x100000000000000000000000000000000nat
    } else if j == 2 {
        17854737389604993311nat + 1669572981167730125nat * 0x10000000000000000 + 0x100000000000000000000000000000000nat
    } else if j == 3 {
        10057302232697242467nat + 816707133613602345nat * 0x10000000000000000 + 0x100000000000000000000000000000000nat
    } else if j == 4 {
        8958942473441515517nat + 403931097166463918nat * 0x10000000000000000 + 0x100000000000000000000000000000000nat
    } else if j == 5 {
        17855306115364535784nat + 200871872941133542nat * 0x10000000000000000 + 0x100000000000000000000000000000000nat
    } else if j == 6 {
        5361163942339934783nat + 100163996173424344nat * 0x10000000000000000 + 0x100000000000000000000000000000000nat
    } else if j == 7 {
        3002515481205445955nat + 50014196964519265nat * 0x10000000000000000 + 0x100000000000000000000000000000000nat
    } else if j == 8 {
        18381954890662373275nat + 24990171141283489nat * 0x10000000000000000 + 0x100000000000000000000000000000000nat
    } else if j == 9 {
        7863777292665987087nat + 12490856599448656nat * 0x10000000000000000 + 0x100000000000000000000000000000000nat
    } else if j == 10 {
        2935407722259146207nat + 6244371414720417nat * 0x10000000000000000 + 0x100000000000000000000000000000000nat
    } else if j == 11 {
        4099144763823068965nat + 3121921530820282nat * 0x10000000000000000 + 0x100000000000000000000000000000000nat
    } else if j == 12 {
        7830867710921767997nat + 1560894726863213nat * 0x10000000000000000 + 0x100000000000000000000000000000000nat
    } else if j == 13 {
        15030865137112770483nat + 780430854493329nat * 0x10000000000000000 + 0x100000000000000000000000000000000nat
    } else if j == 14 {
        6072397496287043622nat + 390211300099399nat * 0x10000000000000000 + 0x100000000000000000000000000000000nat
    } else if j == 15 {
        439311289473205244nat + 195104618273796nat * 0x10000000000000000 + 0x100000000000000000000000000000000nat
    } else if j == 16 {
        3381501736036650923nat + 97552051194286nat * 0x10000000000000000 + 0x100000000000000000000000000000000nat
    } else if j == 17 {
        11878183186495682505nat + 48775961111660nat * 0x10000000000000000 + 0x100000000000000000000000000000000nat
    } else if j == 18 {
        436289341605138797nat + 24387964434481nat * 0x10000000000000000 + 0x100000000000000000000000000000000nat
    } else if j == 19 {
        15706463035261523811nat + 12193978186905nat * 0x10000000000000000 + 0x100000000000000000000000000000000nat
    } else if j == 20 {
        10951006159863813672nat + 6096988085869nat * 0x10000000000000000 + 0x100000000000000000000000000000000nat
    } else if j == 21 {
        100320500613761579nat + 3048493791039nat * 0x10000000000000000 + 0x100000000000000000000000000000000nat
    } else if j == 22 {
        10331567486136386213nat + 1524246832545nat * 0x10000000000000000 + 0x100000000000000000000000000000000nat
    } else if j == 23 {
        5442291021268196350nat + 762123400529nat * 0x10000000000000000 + 0x100000000000000000000000000000000nat
    } else if j == 24 {
        14320987186005390063nat + 381061696328nat * 0x10000000000000000 + 0x100000000000000000000000000000000nat
    } else if j == 25 {
        7754798478847538042nat + 190530847180nat * 0x10000000000000000 + 0x100000000000000000000000000000000nat
    } else if j == 26 {
        4025998895411732230nat + 95265423344nat * 0x10000000000000000 + 0x100000000000000000000000000000000nat
    } else if j == 27 {
        11273524327873463545nat + 47632711610nat * 0x10000000000000000 + 0x100000000000000000000000000000000nat
    } else if j == 28 {
        17175265786997884963nat + 23816355789nat * 0x10000000000000000 + 0x100000000000000000000000000000000nat
    } else if j == 29 {
        2248886808180014672nat + 11908177891nat * 0x10000000000000000 + 0x100000000000000000000000000000000nat
    } else if j == 30 {
        11068971934550065103nat + 5954088944nat * 0x10000000000000000 + 0x100000000000000000000000000000000nat
    } else if j == 31 {
        1103089072964130132nat + 2977044472nat * 0x10000000000000000 + 0x100000000000000000000000000000000nat
    } else if j == 32 {
        17890439386703286701nat + 1488522235nat * 0x10000000000000000 + 0x100000000000000000000000000000000nat
    } else if j == 33 {
        17891629424345511116nat + 744261117nat * 0x10000000000000000 + 0x100000000000000000000000000000000nat
    } else if j == 34 {
        18099946172563701162nat + 372130558nat * 0x10000000000000000 + 0x100000000000000000000000000000000nat
    } else if j == 35 {
        9032662942166067630nat + 186065279nat * 0x10000000000000000 + 0x100000000000000000000000000000000nat
    } else if j == 36 {
        13735375971908885710nat + 93032639nat * 0x10000000000000000 + 0x100000000000000000000000000000000nat
    } else if j == 37 {
        16089978138801990413nat + 46516319nat * 0x10000000000000000 + 0x100000000000000000000000000000000nat
    } else if j == 38 {
        17268090635253964293nat + 23258159nat * 0x10000000000000000 + 0x100000000000000000000000000000000nat
    } else if j == 39 {
        17857349736731306316nat + 11629079nat * 0x10000000000000000 + 0x100000000000000000000000000000000nat
    } else if j == 40 {
        18152030000782816061nat + 5814539nat * 0x10000000000000000 + 0x100000000000000000000000000000000nat
    } else if j == 41 {
        18299382811136780613nat + 2907269nat * 0x10000000000000000 + 0x100000000000000000000000000000000nat
    } else if j == 42 {
        18373062385895815308nat + 1453634nat * 0x10000000000000000 + 0x100000000000000000000000000000000nat
    } else if j == 43 {
        9186530928816069952nat + 726817nat * 0x10000000000000000 + 0x100000000000000000000000000000000nat
    } else if j == 44 {
        13816637435229851358nat + 363408nat * 0x10000000000000000 + 0x100000000000000000000000000000000nat
    } else if j == 45 {
        6908318701106685822nat + 181704nat * 0x10000000000000000 + 0x100000000000000000000000000000000nat
    } else if j == 46 {
        3454159346426282946nat + 90852nat * 0x10000000000000000 + 0x100000000000000000000000000000000nat
    } else if j == 47 {
        1727079672181376481nat + 45426nat * 0x10000000000000000 + 0x100000000000000000000000000000000nat
    } else if j == 48 {
        863539835832746992nat + 22713nat * 0x10000000000000000 + 0x100000000000000000000000000000000nat
    } else if j == 49 {
        9655141954706663992nat + 11356nat * 0x10000000000000000 + 0x100000000000000000000000000000000nat
    } else if j == 50 {
        4827570977337210668nat + 5678nat * 0x10000000000000000 + 0x100000000000000000000000000000000nat
    } else if j == 51 {
        2413785488664575002nat + 2839nat * 0x10000000000000000 + 0x100000000000000000000000000000000nat
    } else if j == 52 {
        10430264781186055726nat + 1419nat * 0x10000000000000000 + 0x100000000000000000000000000000000nat
    } else if j == 53 {
        14438504427447551775nat + 709nat * 0x10000000000000000 + 0x100000000000000000000000000000000nat
    } else if j == 54 {
        16442624250578488721nat + 354nat * 0x10000000000000000 + 0x100000000000000000000000000000000nat
    } else if j == 55 {
        8221312125289228617nat + 177nat * 0x10000000000000000 + 0x100000000000000000000000000000000nat
    } else if j == 56 {
        13334028099499386180nat + 88nat * 0x10000000000000000 + 0x100000000000000000000000000000000nat
    } else if j == 57 {
        6667014049749692106nat + 44nat * 0x10000000000000000 + 0x100000000000000000000000000000000nat
    } else if j == 58 {
        3333507024874845807nat + 22nat * 0x10000000000000000 + 0x100000000000000000000000000000000nat
    } else if j == 59 {
        1666753512437422842nat + 11nat * 0x10000000000000000 + 0x100000000000000000000000000000000nat
    } else if j == 60 {
        10056748793073487213nat + 5nat * 0x10000000000000000 + 0x100000000000000000000000000000000nat
    } else if j == 61 {
        14251746433391519410nat + 2nat * 0x10000000000000000 + 0x100000000000000000000000000000000nat
    } else if j == 62 {
        7125873216695759704nat + 1nat * 0x10000000000000000 + 0x100000000000000000000000000000000nat
    } else if j == 63 {
        12786308645202655659nat + 0nat * 0x10000000000000000 + 0x100000000000000000000000000000000nat
    } else {
        0
    }
}

/// The factor table entry, as a wide value.
fn exp_mask_limbs(j: usize) -> (m: U256)
    requires
        j < 64,
    ensures
        m.as_nat() == exp_mask(j as int),
{
    if j == 0 {
        U256::from_limbs(12896923290648804670, 7640891576956012808, 1, 0)
    } else if j == 1 {
        U256::from_limbs(10185530680776453612, 3490255227380126430, 1, 0)
    } else if j == 2 {
        U256::from_limbs(17854737389604993311, 1669572981167730125, 1, 0)
    } else if j == 3 {
        U256::from_limbs(10057302232697242467, 816707133613602345, 1, 0)
    } else if j == 4 {
        U256::from_limbs(8958942473441515517, 403931097166463918, 1, 0)
    } else if j == 5 {
        U256::from_limbs(17855306115364535784, 200871872941133542, 1, 0)
    } else if j == 6 {
        U256::from_limbs(5361163942339934783, 100163996173424344, 1, 0)
    } else if j == 7 {
        U256::from_limbs(3002515481205445955, 50014196964519265, 1, 0)
    } else if j == 8 {
        U256::from_limbs(18381954890662373275, 24990171141283489, 1, 0)
    } else if j == 9 {
        U256::from_limbs(7863777292665987087, 12490856599448656, 1, 0)
    } else if j == 10 {
        U256::from_limbs(2935407722259146207, 6244371414720417, 1, 0)
    } else if j == 11 {
        U256::from_limbs(4099144763823068965, 3121921530820282, 1, 0)
    } else if j == 12 {
        U256::from_limbs(7830867710921767997, 1560894726863213, 1, 0)
    } else if j == 13 {
        U256::from_limbs(15030865137112770483, 780430854493329, 1, 0)
    } else if j == 14 {
        U256::from_limbs(6072397496287043622, 390211300099399, 1, 0)
    } else if j == 15 {
        U256::from_limbs(439311289473205244, 195104618273796, 1, 0)
    } else if j == 16 {
        U256::from_limbs(3381501736036650923, 97552051194286, 1, 0)
    } else if j == 17 {
        U256::from_limbs(11878183186495682505, 48775961111660, 1, 0)
    } else if j == 18 {
        U256::from_limbs(436289341605138797, 24387964434481, 1, 0)
    } else if j == 19 {
        U256::from_limbs(15706463035261523811, 12193978186905, 1, 0)
    } else if j == 20 {
        U256::from_limbs(10951006159863813672, 6096988085869, 1, 0)
    } else if j == 21 {
        U256::from_limbs(100320500613761579, 3048493791039, 1, 0)
    } else if j == 22 {
        U256::from_limbs(10331567486136386213, 1524246832545, 1, 0)
    } else if j == 23 {
        U256::from_limbs(5442291021268196350, 762123400529, 1, 0)
    } else if j == 24 {
        U256::from_limbs(14320987186005390063, 381061696328, 1, 0)
    } else if j == 25 {
        U256::from_limbs(7754798478847538042, 190530847180, 1, 0)
    } else if j == 26 {
        U256::from_limbs(4025998895411732230, 95265423344, 1, 0)
    } else if j == 27 {
        U256::from_limbs(11273524327873463545, 47632711610, 1, 0)
    } else if j == 28 {
        U256::from_limbs(17175265786997884963, 23816355789, 1, 0)
    } else if j == 29 {
        U256::from_limbs(2248886808180014672, 11908177891, 1, 0)
    } else if j == 30 {
        U256::from_limbs(11068971934550065103, 5954088944, 1, 0)
    } else if j == 31 {
        U256::from_limbs(1103089072964130132, 2977044472, 1, 0)
    } else if j == 32 {
        U256::from_limbs(17890439386703286701, 1488522235, 1, 0)
    } else if j == 33 {
        U256::from_limbs(17891629424345511116, 744261117, 1, 0)
    } else if j == 34 {
        U256::from_limbs(18099946172563701162, 372130558, 1, 0)
    } else if j == 35 {
        U256::from_limbs(9032662942166067630, 186065279, 1, 0)
    } else if j == 36 {
        U256::from_limbs(13735375971908885710, 93032639, 1, 0)
    } else if j == 37 {
        U256::from_limbs(16089978138801990413, 46516319, 1, 0)
    } else if j == 38 {
        U256::from_limbs(17268090635253964293, 23258159, 1, 0)
    } else if j == 39 {
        U256::from_limbs(17857349736731306316, 11629079, 1, 0)
    } else if j == 40 {
        U256::from_limbs(18152030000782816061, 5814539, 1, 0)
    } else if j == 41 {
        U256::from_limbs(18299382811136780613, 2907269, 1, 0)
    } else if j == 42 {
        U256::from_limbs(18373062385895815308, 1453634, 1, 0)
    } else if j == 43 {
        U256::from_limbs(9186530928816069952, 726817, 1, 0)
    } else if j == 44 {
        U256::from_limbs(13816637435229851358, 363408, 1, 0)
    } else if j == 45 {
        U256::from_limbs(6908318701106685822, 181704, 1, 0)
    } else if j == 46 {
        U256::from_limbs(3454159346426282946, 90852, 1, 0)
    } else if j == 47 {
        U256::from_limbs(1727079672181376481, 45426, 1, 0)
    } else if j == 48 {
        U256::from_limbs(863539835832746992, 22713, 1, 0)
    } else if j == 49 {
        U256::from_limbs(9655141954706663992, 11356, 1, 0)
    } else if j == 50 {
        U256::from_limbs(4827570977337210668, 5678, 1, 0)
    } else if j == 51 {
        U256::from_limbs(2413785488664575002, 2839, 1, 0)
    } else if j == 52 {
        U256::from_limbs(10430264781186055726, 1419, 1, 0)
    } else if j == 53 {
        U256::from_limbs(14438504427447551775, 709, 1, 0)
    } else if j == 54 {
        U256::from_limbs(16442624250578488721, 354, 1, 0)
    } else if j == 55 {
        U256::from_limbs(8221312125289228617, 177, 1, 0)
    } else if j == 56 {
        U256::from_limbs(13334028099499386180, 88, 1, 0)
    } else if j == 57 {
        U256::from_limbs(6667014049749692106, 44, 1, 0)
    } else if j == 58 {
        U256::from_limbs(3333507024874845807, 22, 1, 0)
    } else if j == 59 {
        U256::from_limbs(1666753512437422842, 11, 1, 0)
    } else if j == 60 {
        U256::from_limbs(10056748793073487213, 5, 1, 0)
    } else if j == 61 {
        U256::from_limbs(14251746433391519410, 2, 1, 0)
    } else if j == 62 {
        U256::from_limbs(7125873216695759704, 1, 1, 0)
    } else if j == 63 {
        U256::from_limbs(12786308645202655659, 0, 1, 0)
    } else {
        U256::from_limbs(0, 0, 0, 0)
    }
}

/// Every factor is at least `2^128`: the table holds powers of two of
/// nonnegative exponent.
proof fn lemma_exp_mask_ge(j: int)
    requires
        0 <= j < 64,
    ensures
        exp_mask(j) >= 0x100000000000000000000000000000000nat,
{
}

/// The accumulator after the top `j` fraction bits have been applied,
/// starting from `2^127`.
pub open spec fn exp_fold(f: nat, j: int) -> nat
    decreases j,
{
    if j <= 0 {
        0x80000000000000000000000000000000nat
    } else {
        let prev = exp_fold(f, j - 1);
        if (f / pow2((64 - j) as nat)) % 2 == 1 {
            (prev * exp_mask(j - 1)) / 0x100000000000000000000000000000000nat
        } else {
            prev
        }
    }
}

/// The number `exp2` returns: zero once the value underflows the
/// representation, and otherwise the folded fraction shifted by the
/// integer part.
pub open spec fn exp2_spec(x: int) -> nat {
    if x < -0x400000000000000000 {
        0
    } else {
        let q = x / 0x10000000000000000;
        let f = x % 0x10000000000000000;
        exp_fold(f as nat, 64) / pow2((63 - q) as nat)
    }
}

/// The fold of an all-ones fraction, step by step; its values bound every
/// other fold from above.
proof fn lemma_exp_allones_chain()
    ensures
        exp_fold(0xffffffffffffffffnat, 0) == 170141183460469231731687303715884105728nat,
        exp_fold(0xffffffffffffffffnat, 1) == 240615969168004511545033772477625056927nat,
        exp_fold(0xffffffffffffffffnat, 2) == 286142222517866327586855861304318312413nat,
        exp_fold(0xffffffffffffffffnat, 3) == 312040306297756043528438546211487503608nat,
        exp_fold(0xffffffffffffffffnat, 4) == 325855510927366467338765757798166302655nat,
        exp_fold(0xffffffffffffffffnat, 5) == 332990817489906152516528174760363655110nat,
        exp_fold(0xffffffffffffffffnat, 6) == 336616849754143321171240736068313607675nat,
        exp_fold(0xffffffffffffffffnat, 7) == 338444645961211524111694060679677685504nat,
        exp_fold(0xffffffffffffffffnat, 8) == 339362262485680770294711564297527942513nat,
        exp_fold(0xffffffffffffffffnat, 9) == 339822003293300968391941903755125245308nat,
        exp_fold(0xffffffffffffffffnat, 10) == 340052107201910159018235275086188756472nat,
        exp_fold(0xffffffffffffffffnat, 11) == 340167217578529594754386235778394637180nat,
        exp_fold(0xffffffffffffffffnat, 12) == 340224787378186065024124058177160890940nat,
        exp_fold(0xffffffffffffffffnat, 13) == 340253575931572222344808541527975417842nat,
        exp_fold(0xffffffffffffffffnat, 14) == 340267971121744950115931523046122852693nat,
        exp_fold(0xffffffffffffffffnat, 15) == 340275168945212498243824544813253388194nat,
        exp_fold(0xffffffffffffffffnat, 16) == 340278767914042977419818114301068315650nat,
        exp_fold(0xffffffffffffffffnat, 17) == 340280567412732569420752589735540255560nat,
        exp_fold(0xffffffffffffffffnat, 18) == 340281467165645975541538300962849720600nat,
        exp_fold(0xffffffffffffffffnat, 19) == 340281917042994833884159925800699069117nat,
        exp_fold(0xffffffffffffffffnat, 20) == 340282141981892302220047427165751816662nat,
        exp_fold(0xffffffffffffffffnat, 21) == 340282254451396796222137840463944662868nat,
        exp_fold(0xffffffffffffffffnat, 22) == 340282310686162983187095027395548206928nat,
        exp_fold(0xffffffffffffffffnat, 23) == 340282338803549561661223530468750597220nat,
        exp_fold(0xffffffffffffffffnat, 24) == 340282352862243722146284248737311181589nat,
        exp_fold(0xffffffffffffffffnat, 25) == 340282359891591020200824223221658257072nat,
        exp_fold(0xffffffffffffffffnat, 26) == 340282363406264723681097926634783937744nat,
        exp_fold(0xffffffffffffffffnat, 27) == 340282365163601589034485871425767421582nat,
        exp_fold(0xffffffffffffffffnat, 28) == 340282366042270025114492637597574848903nat,
        exp_fold(0xffffffffffffffffnat, 29) == 340282366481604244005324221690708811889nat,
        exp_fold(0xffffffffffffffffnat, 30) == 340282366701271353663447064309477272485nat,
        exp_fold(0xffffffffffffffffnat, 31) == 340282366811104908545685248301961112204nat,
        exp_fold(0xffffffffffffffffnat, 32) == 340282366866021686000098530973984089377nat,
        exp_fold(0xffffffffffffffffnat, 33) == 340282366893480074730628719979566611661nat,
        exp_fold(0xffffffffffffffffnat, 34) == 340282366907209269096724701399828852398nat,
        exp_fold(0xffffffffffffffffnat, 35) == 340282366914073866279980413839337495312nat,
        exp_fold(0xffffffffffffffffnat, 36) == 340282366917506164871660200491437419610nat,
        exp_fold(0xffffffffffffffffnat, 37) == 340282366919222314167513076425573935244nat,
        exp_fold(0xffffffffffffffffnat, 38) == 340282366920080388815442760044663850529nat,
        exp_fold(0xffffffffffffffffnat, 39) == 340282366920509426139408413267214224926nat,
        exp_fold(0xffffffffffffffffnat, 40) == 340282366920723944801391442731740766610nat,
        exp_fold(0xffffffffffffffffnat, 41) == 340282366920831204132383008177316876110nat,
        exp_fold(0xffffffffffffffffnat, 42) == 340282366920884833797878803578433140529nat,
        exp_fold(0xffffffffffffffffnat, 43) == 340282366920911648630626704448573325156nat,
        exp_fold(0xffffffffffffffffnat, 44) == 340282366920925056047000655676038930573nat,
        exp_fold(0xffffffffffffffffnat, 45) == 340282366920931759755187631487870611557nat,
        exp_fold(0xffffffffffffffffnat, 46) == 340282366920935111609281119443311171617nat,
        exp_fold(0xffffffffffffffffnat, 47) == 340282366920936787536327863433412631538nat,
        exp_fold(0xffffffffffffffffnat, 48) == 340282366920937625499851235431558656470nat,
        exp_fold(0xffffffffffffffffnat, 49) == 340282366920938044481612921431405492678nat,
        exp_fold(0xffffffffffffffffnat, 50) == 340282366920938253972493764431522366718nat,
        exp_fold(0xffffffffffffffffnat, 51) == 340282366920938358717934185931629167722nat,
        exp_fold(0xffffffffffffffffnat, 52) == 340282366920938411090654396681694659220nat,
        exp_fold(0xffffffffffffffffnat, 53) == 340282366920938437277014502056730427718nat,
        exp_fold(0xffffffffffffffffnat, 54) == 340282366920938450370194554744249067654nat,
        exp_fold(0xffffffffffffffffnat, 55) == 340282366920938456916784581088008576543nat,
        exp_fold(0xffffffffffffffffnat, 56) == 340282366920938460190079594259888378218nat,
        exp_fold(0xffffffffffffffffnat, 57) == 340282366920938461826727100845828290862nat,
        exp_fold(0xffffffffffffffffnat, 58) == 340282366920938462645050854138798250136nat,
        exp_fold(0xffffffffffffffffnat, 59) == 340282366920938463054212730785283230511nat,
        exp_fold(0xffffffffffffffffnat, 60) == 340282366920938463258793669108525720883nat,
        exp_fold(0xffffffffffffffffnat, 61) == 340282366920938463361084138270146966114nat,
        exp_fold(0xffffffffffffffffnat, 62) == 340282366920938463412229372850957588740nat,
        exp_fold(0xffffffffffffffffnat, 63) == 340282366920938463437801990141362900056nat,
        exp_fold(0xffffffffffffffffnat, 64) == 340282366920938463450588298786565555714nat,
{
    lemma2_to64();
    lemma2_to64_rest();
    assert(exp_fold(0xffffffffffffffffnat, 0) == 170141183460469231731687303715884105728nat);
    assert((0xffffffffffffffffnat / 0x8000000000000000nat) % 2 == 1) by (nonlinear_arith);
    assert((0xffffffffffffffffnat / pow2(63)) % 2 == 1);
    assert((170141183460469231731687303715884105728nat * (12896923290648804670nat + 7640891576956012808nat * 0x10000000000000000 + 0x100000000000000000000000000000000nat))
        / 0x100000000000000000000000000000000nat == 240615969168004511545033772477625056927nat) by (nonlinear_arith);
    assert(exp_fold(0xffffffffffffffffnat, 1) == 240615969168004511545033772477625056927nat);
    assert((0xffffffffffffffffnat / 0x4000000000000000nat) % 2 == 1) by (nonlinear_arith);
    assert((0xffffffffffffffffnat / pow2(62)) % 2 == 1);
    assert((240615969168004511545033772477625056927nat * (10185530680776453612nat + 3490255227380126430nat * 0x10000000000000000 + 0x100000000000000000000000000000000nat))
        / 0x100000000000000000000000000000000nat == 286142222517866327586855861304318312413nat) by (nonlinear_arith);
    assert(exp_fold(0xffffffffffffffffnat, 2) == 286142222517866327586855861304318312413nat);
    assert((0xffffffffffffffffnat / 0x2000000000000000nat) % 2 == 1) by (nonlinear_arith);
    assert((0xffffffffffffffffnat / pow2(61)) % 2 == 1);
    assert((286142222517866327586855861304318312413nat * (17854737389604993311nat + 1669572981167730125nat * 0x10000000000000000 + 0x100000000000000000000000000000000nat))
        / 0x100000000000000000000000000000000nat == 312040306297756043528438546211487503608nat) by (nonlinear_arith);
    assert(exp_fold(0xffffffffffffffffnat, 3) == 312040306297756043528438546211487503608nat);
    assert((0xffffffffffffffffnat / 0x1000000000000000nat) % 2 == 1) by (nonlinear_arith);
    assert((0xffffffffffffffffnat / pow2(60)) % 2 == 1);
    assert((312040306297756043528438546211487503608nat * (10057302232697242467nat + 816707133613602345nat * 0x10000000000000000 + 0x100000000000000000000000000000000nat))
        / 0x100000000000000000000000000000000nat == 325855510927366467338765757798166302655nat) by (nonlinear_arith);
    assert(exp_fold(0xffffffffffffffffnat, 4) == 325855510927366467338765757798166302655nat);
    assert((0xffffffffffffffffnat / 0x800000000000000nat) % 2 == 1) by (nonlinear_arith);
    assert((0xffffffffffffffffnat / pow2(59)) % 2 == 1);
    assert((325855510927366467338765757798166302655nat * (8958942473441515517nat + 403931097166463918nat * 0x10000000000000000 + 0x100000000000000000000000000000000nat))
        / 0x100000000000000000000000000000000nat == 332990817489906152516528174760363655110nat) by (nonlinear_arith);
    assert(exp_fold(0xffffffffffffffffnat, 5) == 332990817489906152516528174760363655110nat);
    assert((0xffffffffffffffffnat / 0x400000000000000nat) % 2 == 1) by (nonlinear_arith);
    assert((0xffffffffffffffffnat / pow2(58)) % 2 == 1);
    assert((332990817489906152516528174760363655110nat * (17855306115364535784nat + 200871872941133542nat * 0x10000000000000000 + 0x100000000000000000000000000000000nat))
        / 0x100000000000000000000000000000000nat == 336616849754143321171240736068313607675nat) by (nonlinear_arith);
    assert(exp_fold(0xffffffffffffffffnat, 6) == 336616849754143321171240736068313607675nat);
    assert((0xffffffffffffffffnat / 0x200000000000000nat) % 2 == 1) by (nonlinear_arith);
    assert((0xffffffffffffffffnat / pow2(57)) % 2 == 1);
    assert((336616849754143321171240736068313607675nat * (5361163942339934783nat + 100163996173424344nat * 0x10000000000000000 + 0x100000000000000000000000000000000nat))
        / 0x100000000000000000000000000000000nat == 338444645961211524111694060679677685504nat) by (nonlinear_arith);
    assert(exp_fold(0xffffffffffffffffnat, 7) == 338444645961211524111694060679677685504nat);
    assert((0xffffffffffffffffnat / 0x100000000000000nat) % 2 == 1) by (nonlinear_arith);
    assert((0xffffffffffffffffnat / pow2(56)) % 2 == 1);
    assert((338444645961211524111694060679677685504nat * (3002515481205445955nat + 50014196964519265nat * 0x10000000000000000 + 0x100000000000000000000000000000000nat))
        / 0x100000000000000000000000000000000nat == 339362262485680770294711564297527942513nat) by (nonlinear_arith);
    assert(exp_fold(0xffffffffffffffffnat, 8) == 339362262485680770294711564297527942513nat);
    assert((0xffffffffffffffffnat / 0x80000000000000nat) % 2 == 1) by (nonlinear_arith);
    assert((0xffffffffffffffffnat / pow2(55)) % 2 == 1);
    assert((339362262485680770294711564297527942513nat * (18381954890662373275nat + 24990171141283489nat * 0x10000000000000000 + 0x100000000000000000000000000000000nat))
        / 0x100000000000000000000000000000000nat == 339822003293300968391941903755125245308nat) by (nonlinear_arith);
    assert(exp_fold(0xffffffffffffffffnat, 9) == 339822003293300968391941903755125245308nat);
    assert((0xffffffffffffffffnat / 0x40000000000000nat) % 2 == 1) by (nonlinear_arith);
    assert((0xffffffffffffffffnat / pow2(54)) % 2 == 1);
    assert((339822003293300968391941903755125245308nat * (7863777292665987087nat + 12490856599448656nat * 0x10000000000000000 + 0x100000000000000000000000000000000nat))
        / 0x100000000000000000000000000000000nat == 340052107201910159018235275086188756472nat) by (nonlinear_arith);
    assert(exp_fold(0xffffffffffffffffnat, 10) == 340052107201910159018235275086188756472nat);
    assert((0xffffffffffffffffnat / 0x20000000000000nat) % 2 == 1) by (nonlinear_arith);
    assert((0xffffffffffffffffnat / pow2(53)) % 2 == 1);
    assert((340052107201910159018235275086188756472nat * (2935407722259146207nat + 6244371414720417nat * 0x10000000000000000 + 0x100000000000000000000000000000000nat))
        / 0x100000000000000000000000000000000nat == 340167217578529594754386235778394637180nat) by (nonlinear_arith);
    assert(exp_fold(0xffffffffffffffffnat, 11) == 340167217578529594754386235778394637180nat);
    assert((0xffffffffffffffffnat / 0x10000000000000nat) % 2 == 1) by (nonlinear_arith);
    assert((0xffffffffffffffffnat / pow2(52)) % 2 == 1);
    assert((340167217578529594754386235778394637180nat * (4099144763823068965nat + 3121921530820282nat * 0x10000000000000000 + 0x100000000000000000000000000000000nat))
        / 0x100000000000000000000000000000000nat == 340224787378186065024124058177160890940nat) by (nonlinear_arith);
    assert(exp_fold(0xffffffffffffffffnat, 12) == 340224787378186065024124058177160890940nat);
    assert((0xffffffffffffffffnat / 0x8000000000000nat) % 2 == 1) by (nonlinear_arith);
    assert((0xffffffffffffffffnat / pow2(51)) % 2 == 1);
    assert((340224787378186065024124058177160890940nat * (7830867710921767997nat + 1560894726863213nat * 0x10000000000000000 + 0x100000000000000000000000000000000nat))
        / 0x100000000000000000000000000000000nat == 340253575931572222344808541527975417842nat) by (nonlinear_arith);
    assert(exp_fold(0xffffffffffffffffnat, 13) == 340253575931572222344808541527975417842nat);
    assert((0xffffffffffffffffnat / 0x4000000000000nat) % 2 == 1) by (nonlinear_arith);
    assert((0xffffffffffffffffnat / pow2(50)) % 2 == 1);
    assert((340253575931572222344808541527975417842nat * (15030865137112770483nat + 780430854493329nat * 0x10000000000000000 + 0x100000000000000000000000000000000nat))
        / 0x100000000000000000000000000000000nat == 340267971121744950115931523046122852693nat) by (nonlinear_arith);
    assert(exp_fold(0xffffffffffffffffnat, 14) == 340267971121744950115931523046122852693nat);
    assert((0xffffffffffffffffnat / 0x2000000000000nat) % 2 == 1) by (nonlinear_arith);
    assert((0xffffffffffffffffnat / pow2(49)) % 2 == 1);
    assert((340267971121744950115931523046122852693nat * (6072397496287043622nat + 390211300099399nat * 0x10000000000000000 + 0x100000000000000000000000000000000nat))
        / 0x100000000000000000000000000000000nat == 340275168945212498243824544813253388194nat) by (nonlinear_arith);
    assert(exp_fold(0xffffffffffffffffnat, 15) == 340275168945212498243824544813253388194nat);
    assert((0xffffffffffffffffnat / 0x1000000000000nat) % 2 == 1) by (nonlinear_arith);
    assert((0xffffffffffffffffnat / pow2(48)) % 2 == 1);
    assert((340275168945212498243824544813253388194nat * (439311289473205244nat + 195104618273796nat * 0x10000000000000000 + 0x100000000000000000000000000000000nat))
        / 0x100000000000000000000000000000000nat == 340278767914042977419818114301068315650nat) by (nonlinear_arith);
    assert(exp_fold(0xffffffffffffffffnat, 16) == 340278767914042977419818114301068315650nat);
    assert((0xffffffffffffffffnat / 0x800000000000nat) % 2 == 1) by (nonlinear_arith);
    assert((0xffffffffffffffffnat / pow2(47)) % 2 == 1);
    assert((340278767914042977419818114301068315650nat * (3381501736036650923nat + 97552051194286nat * 0x10000000000000000 + 0x100000000000000000000000000000000nat))
        / 0x100000000000000000000000000000000nat == 340280567412732569420752589735540255560nat) by (nonlinear_arith);
    assert(exp_fold(0xffffffffffffffffnat, 17) == 340280567412732569420752589735540255560nat);
    assert((0xffffffffffffffffnat / 0x400000000000nat) % 2 == 1) by (nonlinear_arith);
    assert((0xffffffffffffffffnat / pow2(46)) % 2 == 1);
    assert((340280567412732569420752589735540255560nat * (11878183186495682505nat + 48775961111660nat * 0x10000000000000000 + 0x100000000000000000000000000000000nat))
        / 0x100000000000000000000000000000000nat == 340281467165645975541538300962849720600nat) by (nonlinear_arith);
    assert(exp_fold(0xffffffffffffffffnat, 18) == 340281467165645975541538300962849720600nat);
    assert((0xffffffffffffffffnat / 0x200000000000nat) % 2 == 1) by (nonlinear_arith);
    assert((0xffffffffffffffffnat / pow2(45)) % 2 == 1);
    assert((340281467165645975541538300962849720600nat * (436289341605138797nat + 24387964434481nat * 0x10000000000000000 + 0x100000000000000000000000000000000nat))
        / 0x100000000000000000000000000000000nat == 340281917042994833884159925800699069117nat) by (nonlinear_arith);
    assert(exp_fold(0xffffffffffffffffnat, 19) == 340281917042994833884159925800699069117nat);
    assert((0xffffffffffffffffnat / 0x100000000000nat) % 2 == 1) by (nonlinear_arith);
    assert((0xffffffffffffffffnat / pow2(44)) % 2 == 1);
    assert((340281917042994833884159925800699069117nat * (15706463035261523811nat + 12193978186905nat * 0x10000000000000000 + 0x100000000000000000000000000000000nat))
        / 0x100000000000000000000000000000000nat == 340282141981892302220047427165751816662nat) by (nonlinear_arith);
    assert(exp_fold(0xffffffffffffffffnat, 20) == 340282141981892302220047427165751816662nat);
    assert((0xffffffffffffffffnat / 0x80000000000nat) % 2 == 1) by (nonlinear_arith);
    assert((0xffffffffffffffffnat / pow2(43)) % 2 == 1);
    assert((340282141981892302220047427165751816662nat * (10951006159863813672nat + 6096988085869nat * 0x10000000000000000 + 0x100000000000000000000000000000000nat))
        / 0x100000000000000000000000000000000nat == 340282254451396796222137840463944662868nat) by (nonlinear_arith);
    assert(exp_fold(0xffffffffffffffffnat, 21) == 340282254451396796222137840463944662868nat);
    assert((0xffffffffffffffffnat / 0x40000000000nat) % 2 == 1) by (nonlinear_arith);
    assert((0xffffffffffffffffnat / pow2(42)) % 2 == 1);
    assert((340282254451396796222137840463944662868nat * (100320500613761579nat + 3048493791039nat * 0x10000000000000000 + 0x100000000000000000000000000000000nat))
        / 0x100000000000000000000000000000000nat == 340282310686162983187095027395548206928nat) by (nonlinear_arith);
    assert(exp_fold(0xffffffffffffffffnat, 22) == 340282310686162983187095027395548206928nat);
    assert((0xffffffffffffffffnat / 0x20000000000nat) % 2 == 1) by (nonlinear_arith);
    assert((0xffffffffffffffffnat / pow2(41)) % 2 == 1);
    assert((340282310686162983187095027395548206928nat * (10331567486136386213nat + 1524246832545nat * 0x10000000000000000 + 0x100000000000000000000000000000000nat))
        / 0x100000000000000000000000000000000nat == 340282338803549561661223530468750597220nat) by (nonlinear_arith);
    assert(exp_fold(0xffffffffffffffffnat, 23) == 340282338803549561661223530468750597220nat);
    assert((0xffffffffffffffffnat / 0x10000000000nat) % 2 == 1) by (nonlinear_arith);
    assert((0xffffffffffffffffnat / pow2(40)) % 2 == 1);
    assert((340282338803549561661223530468750597220nat * (5442291021268196350nat + 762123400529nat * 0x10000000000000000 + 0x100000000000000000000000000000000nat))
        / 0x100000000000000000000000000000000nat == 340282352862243722146284248737311181589nat) by (nonlinear_arith);
    assert(exp_fold(0xffffffffffffffffnat, 24) == 340282352862243722146284248737311181589nat);
    assert((0xffffffffffffffffnat / 0x8000000000nat) % 2 == 1) by (nonlinear_arith);
    assert((0xffffffffffffffffnat / pow2(39)) % 2 == 1);
    assert((340282352862243722146284248737311181589nat * (14320987186005390063nat + 381061696328nat * 0x10000000000000000 + 0x100000000000000000000000000000000nat))
        / 0x100000000000000000000000000000000nat == 340282359891591020200824223221658257072nat) by (nonlinear_arith);
    assert(exp_fold(0xffffffffffffffffnat, 25) == 340282359891591020200824223221658257072nat);
    assert((0xffffffffffffffffnat / 0x4000000000nat) % 2 == 1) by (nonlinear_arith);
    assert((0xffffffffffffffffnat / pow2(38)) % 2 == 1);
    assert((340282359891591020200824223221658257072nat * (7754798478847538042nat + 190530847180nat * 0x10000000000000000 + 0x100000000000000000000000000000000nat))
        / 0x100000000000000000000000000000000nat == 340282363406264723681097926634783937744nat) by (nonlinear_arith);
    assert(exp_fold(0xffffffffffffffffnat, 26) == 340282363406264723681097926634783937744nat);
    assert((0xffffffffffffffffnat / 0x2000000000nat) % 2 == 1) by (nonlinear_arith);
    assert((0xffffffffffffffffnat / pow2(37)) % 2 == 1);
    assert((340282363406264723681097926634783937744nat * (4025998895411732230nat + 95265423344nat * 0x10000000000000000 + 0x100000000000000000000000000000000nat))
        / 0x100000000000000000000000000000000nat == 340282365163601589034485871425767421582nat) by (nonlinear_arith);
    assert(exp_fold(0xffffffffffffffffnat, 27) == 340282365163601589034485871425767421582nat);
    assert((0xffffffffffffffffnat / 0x1000000000nat) % 2 == 1) by (nonlinear_arith);
    assert((0xffffffffffffffffnat / pow2(36)) % 2 == 1);
    assert((340282365163601589034485871425767421582nat * (11273524327873463545nat + 47632711610nat * 0x10000000000000000 + 0x100000000000000000000000000000000nat))
        / 0x100000000000000000000000000000000nat == 340282366042270025114492637597574848903nat) by (nonlinear_arith);
    assert(exp_fold(0xffffffffffffffffnat, 28) == 340282366042270025114492637597574848903nat);
    assert((0xffffffffffffffffnat / 0x800000000nat) % 2 == 1) by (nonlinear_arith);
    assert((0xffffffffffffffffnat / pow2(35)) % 2 == 1);
    assert((340282366042270025114492637597574848903nat * (17175265786997884963nat + 23816355789nat * 0x10000000000000000 + 0x100000000000000000000000000000000nat))
        / 0x100000000000000000000000000000000nat == 340282366481604244005324221690708811889nat) by (nonlinear_arith);
    assert(exp_fold(0xffffffffffffffffnat, 29) == 340282366481604244005324221690708811889nat);
    assert((0xffffffffffffffffnat / 0x400000000nat) % 2 == 1) by (nonlinear_arith);
    assert((0xffffffffffffffffnat / pow2(34)) % 2 == 1);
    assert((340282366481604244005324221690708811889nat * (2248886808180014672nat + 11908177891nat * 0x10000000000000000 + 0x100000000000000000000000000000000nat))
        / 0x100000000000000000000000000000000nat == 340282366701271353663447064309477272485nat) by (nonlinear_arith);
    assert(exp_fold(0xffffffffffffffffnat, 30) == 340282366701271353663447064309477272485nat);
    assert((0xffffffffffffffffnat / 0x200000000nat) % 2 == 1) by (nonlinear_arith);
    assert((0xffffffffffffffffnat / pow2(33)) % 2 == 1);
    assert((340282366701271353663447064309477272485nat * (11068971934550065103nat + 5954088944nat * 0x10000000000000000 + 0x100000000000000000000000000000000nat))
        / 0x100000000000000000000000000000000nat == 340282366811104908545685248301961112204nat) by (nonlinear_arith);
    assert(exp_fold(0xffffffffffffffffnat, 31) == 340282366811104908545685248301961112204nat);
    assert((0xffffffffffffffffnat / 0x100000000nat) % 2 == 1) by (nonlinear_arith);
    assert((0xffffffffffffffffnat / pow2(32)) % 2 == 1);
    assert((340282366811104908545685248301961112204nat * (1103089072964130132nat + 2977044472nat * 0x10000000000000000 + 0x100000000000000000000000000000000nat))
        / 0x100000000000000000000000000000000nat == 340282366866021686000098530973984089377nat) by (nonlinear_arith);
    assert(exp_fold(0xffffffffffffffffnat, 32) == 340282366866021686000098530973984089377nat);
    assert((0xffffffffffffffffnat / 0x80000000nat) % 2 == 1) by (nonlinear_arith);
    assert((0xffffffffffffffffnat / pow2(31)) % 2 == 1);
    assert((340282366866021686000098530973984089377nat * (17890439386703286701nat + 1488522235nat * 0x10000000000000000 + 0x100000000000000000000000000000000nat))
        / 0x100000000000000000000000000000000nat == 340282366893480074730628719979566611661nat) by (nonlinear_arith);
    assert(exp_fold(0xffffffffffffffffnat, 33) == 340282366893480074730628719979566611661nat);
    assert((0xffffffffffffffffnat / 0x40000000nat) % 2 == 1) by (nonlinear_arith);
    assert((0xffffffffffffffffnat / pow2(30)) % 2 == 1);
    assert((340282366893480074730628719979566611661nat * (17891629424345511116nat + 744261117nat * 0x10000000000000000 + 0x100000000000000000000000000000000nat))
        / 0x100000000000000000000000000000000nat == 340282366907209269096724701399828852398nat) by (nonlinear_arith);
    assert(exp_fold(0xffffffffffffffffnat, 34) == 340282366907209269096724701399828852398nat);
    assert((0xffffffffffffffffnat / 0x20000000nat) % 2 == 1) by (nonlinear_arith);
    assert((0xffffffffffffffffnat / pow2(29)) % 2 == 1);
    assert((340282366907209269096724701399828852398nat * (18099946172563701162nat + 372130558nat * 0x10000000000000000 + 0x100000000000000000000000000000000nat))
        / 0x100000000000000000000000000000000nat == 340282366914073866279980413839337495312nat) by (nonlinear_arith);
    assert(exp_fold(0xffffffffffffffffnat, 35) == 340282366914073866279980413839337495312nat);
    assert((0xffffffffffffffffnat / 0x10000000nat) % 2 == 1) by (nonlinear_arith);
    assert((0xffffffffffffffffnat / pow2(28)) % 2 == 1);
    assert((340282366914073866279980413839337495312nat * (9032662942166067630nat + 186065279nat * 0x10000000000000000 + 0x100000000000000000000000000000000nat))
        / 0x100000000000000000000000000000000nat == 340282366917506164871660200491437419610nat) by (nonlinear_arith);
    assert(exp_fold(0xffffffffffffffffnat, 36) == 340282366917506164871660200491437419610nat);
    assert((0xffffffffffffffffnat / 0x8000000nat) % 2 == 1) by (nonlinear_arith);
    assert((0xffffffffffffffffnat / pow2(27)) % 2 == 1);
    assert((340282366917506164871660200491437419610nat * (13735375971908885710nat + 93032639nat * 0x10000000000000000 + 0x100000000000000000000000000000000nat))
        / 0x100000000000000000000000000000000nat == 340282366919222314167513076425573935244nat) by (nonlinear_arith);
    assert(exp_fold(0xffffffffffffffffnat, 37) == 340282366919222314167513076425573935244nat);
    assert((0xffffffffffffffffnat / 0x4000000nat) % 2 == 1) by (nonlinear_arith);
    assert((0xffffffffffffffffnat / pow2(26)) % 2 == 1);
    assert((340282366919222314167513076425573935244nat * (16089978138801990413nat + 46516319nat * 0x10000000000000000 + 0x100000000000000000000000000000000nat))
        / 0x100000000000000000000000000000000nat == 340282366920080388815442760044663850529nat) by (nonlinear_arith);
    assert(exp_fold(0xffffffffffffffffnat, 38) == 340282366920080388815442760044663850529nat);
    assert((0xffffffffffffffffnat / 0x2000000nat) % 2 == 1) by (nonlinear_arith);
    assert((0xffffffffffffffffnat / pow2(25)) % 2 == 1);
    assert((340282366920080388815442760044663850529nat * (17268090635253964293nat + 23258159nat * 0x10000000000000000 + 0x100000000000000000000000000000000nat))
        / 0x100000000000000000000000000000000nat == 340282366920509426139408413267214224926nat) by (nonlinear_arith);
    assert(exp_fold(0xffffffffffffffffnat, 39) == 340282366920509426139408413267214224926nat);
    assert((0xffffffffffffffffnat / 0x1000000nat) % 2 == 1) by (nonlinear_arith);
    assert((0xffffffffffffffffnat / pow2(24)) % 2 == 1);
    assert((340282366920509426139408413267214224926nat * (17857349736731306316nat + 11629079nat * 0x10000000000000000 + 0x100000000000000000000000000000000nat))
        / 0x100000000000000000000000000000000nat == 340282366920723944801391442731740766610nat) by (nonlinear_arith);
    assert(exp_fold(0xffffffffffffffffnat, 40) == 340282366920723944801391442731740766610nat);
    assert((0xffffffffffffffffnat / 0x800000nat) % 2 == 1) by (nonlinear_arith);
    assert((0xffffffffffffffffnat / pow2(23)) % 2 == 1);
    assert((340282366920723944801391442731740766610nat * (18152030000782816061nat + 5814539nat * 0x10000000000000000 + 0x100000000000000000000000000000000nat))
        / 0x100000000000000000000000000000000nat == 340282366920831204132383008177316876110nat) by (nonlinear_arith);
    assert(exp_fold(0xffffffffffffffffnat, 41) == 340282366920831204132383008177316876110nat);
    assert((0xffffffffffffffffnat / 0x400000nat) % 2 == 1) by (nonlinear_arith);
    assert((0xffffffffffffffffnat / pow2(22)) % 2 == 1);
    assert((340282366920831204132383008177316876110nat * (18299382811136780613nat + 2907269nat * 0x10000000000000000 + 0x100000000000000000000000000000000nat))
        / 0x100000000000000000000000000000000nat == 340282366920884833797878803578433140529nat) by (nonlinear_arith);
    assert(exp_fold(0xffffffffffffffffnat, 42) == 340282366920884833797878803578433140529nat);
    assert((0xffffffffffffffffnat / 0x200000nat) % 2 == 1) by (nonlinear_arith);
    assert((0xffffffffffffffffnat / pow2(21)) % 2 == 1);
    assert((340282366920884833797878803578433140529nat * (18373062385895815308nat + 1453634nat * 0x10000000000000000 + 0x100000000000000000000000000000000nat))
        / 0x100000000000000000000000000000000nat == 340282366920911648630626704448573325156nat) by (nonlinear_arith);
    assert(exp_fold(0xffffffffffffffffnat, 43) == 340282366920911648630626704448573325156nat);
    assert((0xffffffffffffffffnat / 0x100000nat) % 2 == 1) by (nonlinear_arith);
    assert((0xffffffffffffffffnat / pow2(20)) % 2 == 1);
    assert((340282366920911648630626704448573325156nat * (9186530928816069952nat + 726817nat * 0x10000000000000000 + 0x100000000000000000000000000000000nat))
        / 0x100000000000000000000000000000000nat == 340282366920925056047000655676038930573nat) by (nonlinear_arith);
    assert(exp_fold(0xffffffffffffffffnat, 44) == 340282366920925056047000655676038930573nat);
    assert((0xffffffffffffffffnat / 0x80000nat) % 2 == 1) by (nonlinear_arith);
    assert((0xffffffffffffffffnat / pow2(19)) % 2 == 1);
    assert((340282366920925056047000655676038930573nat * (13816637435229851358nat + 363408nat * 0x10000000000000000 + 0x100000000000000000000000000000000nat))
        / 0x100000000000000000000000000000000nat == 340282366920931759755187631487870611557nat) by (nonlinear_arith);
    assert(exp_fold(0xffffffffffffffffnat, 45) == 340282366920931759755187631487870611557nat);
    assert((0xffffffffffffffffnat / 0x40000nat) % 2 == 1) by (nonlinear_arith);
    assert((0xffffffffffffffffnat / pow2(18)) % 2 == 1);
    assert((340282366920931759755187631487870611557nat * (6908318701106685822nat + 181704nat * 0x10000000000000000 + 0x100000000000000000000000000000000nat))
        / 0x100000000000000000000000000000000nat == 340282366920935111609281119443311171617nat) by (nonlinear_arith);
    assert(exp_fold(0xffffffffffffffffnat, 46) == 340282366920935111609281119443311171617nat);
    assert((0xffffffffffffffffnat / 0x20000nat) % 2 == 1) by (nonlinear_arith);
    assert((0xffffffffffffffffnat / pow2(17)) % 2 == 1);
    assert((340282366920935111609281119443311171617nat * (3454159346426282946nat + 90852nat * 0x10000000000000000 + 0x100000000000000000000000000000000nat))
        / 0x100000000000000000000000000000000nat == 340282366920936787536327863433412631538nat) by (nonlinear_arith);
    assert(exp_fold(0xffffffffffffffffnat, 47) == 340282366920936787536327863433412631538nat);
    assert((0xffffffffffffffffnat / 0x10000nat) % 2 == 1) by (nonlinear_arith);
    assert((0xffffffffffffffffnat / pow2(16)) % 2 == 1);
    assert((340282366920936787536327863433412631538nat * (1727079672181376481nat + 45426nat * 0x10000000000000000 + 0x100000000000000000000000000000000nat))
        / 0x100000000000000000000000000000000nat == 340282366920937625499851235431558656470nat) by (nonlinear_arith);
    assert(exp_fold(0xffffffffffffffffnat, 48) == 340282366920937625499851235431558656470nat);
    assert((0xffffffffffffffffnat / 0x8000nat) % 2 == 1) by (nonlinear_arith);
    assert((0xffffffffffffffffnat / pow2(15)) % 2 == 1);
    assert((340282366920937625499851235431558656470nat * (863539835832746992nat + 22713nat * 0x10000000000000000 + 0x100000000000000000000000000000000nat))
        / 0x100000000000000000000000000000000nat == 340282366920938044481612921431405492678nat) by (nonlinear_arith);
    assert(exp_fold(0xffffffffffffffffnat, 49) == 340282366920938044481612921431405492678nat);
    assert((0xffffffffffffffffnat / 0x4000nat) % 2 == 1) by (nonlinear_arith);
    assert((0xffffffffffffffffnat / pow2(14)) % 2 == 1);
    assert((340282366920938044481612921431405492678nat * (9655141954706663992nat + 11356nat * 0x10000000000000000 + 0x100000000000000000000000000000000nat))
        / 0x100000000000000000000000000000000nat == 340282366920938253972493764431522366718nat) by (nonlinear_arith);
    assert(exp_fold(0xffffffffffffffffnat, 50) == 340282366920938253972493764431522366718nat);
    assert((0xffffffffffffffffnat / 0x2000nat) % 2 == 1) by (nonlinear_arith);
    assert((0xffffffffffffffffnat / pow2(13)) % 2 == 1);
    assert((340282366920938253972493764431522366718nat * (4827570977337210668nat + 5678nat * 0x10000000000000000 + 0x100000000000000000000000000000000nat))
        / 0x100000000000000000000000000000000nat == 340282366920938358717934185931629167722nat) by (nonlinear_arith);
    assert(exp_fold(0xffffffffffffffffnat, 51) == 340282366920938358717934185931629167722nat);
    assert((0xffffffffffffffffnat / 0x1000nat) % 2 == 1) by (nonlinear_arith);
    assert((0xffffffffffffffffnat / pow2(12)) % 2 == 1);
    assert((340282366920938358717934185931629167722nat * (2413785488664575002nat + 2839nat * 0x10000000000000000 + 0x100000000000000000000000000000000nat))
        / 0x100000000000000000000000000000000nat == 340282366920938411090654396681694659220nat) by (nonlinear_arith);
    assert(exp_fold(0xffffffffffffffffnat, 52) == 340282366920938411090654396681694659220nat);
    assert((0xffffffffffffffffnat / 0x800nat) % 2 == 1) by (nonlinear_arith);
    assert((0xffffffffffffffffnat / pow2(11)) % 2 == 1);
    assert((340282366920938411090654396681694659220nat * (10430264781186055726nat + 1419nat * 0x10000000000000000 + 0x100000000000000000000000000000000nat))
        / 0x100000000000000000000000000000000nat == 340282366920938437277014502056730427718nat) by (nonlinear_arith);
    assert(exp_fold(0xffffffffffffffffnat, 53) == 340282366920938437277014502056730427718nat);
    assert((0xffffffffffffffffnat / 0x400nat) % 2 == 1) by (nonlinear_arith);
    assert((0xffffffffffffffffnat / pow2(10)) % 2 == 1);
    assert((340282366920938437277014502056730427718nat * (14438504427447551775nat + 709nat * 0x10000000000000000 + 0x100000000000000000000000000000000nat))
        / 0x100000000000000000000000000000000nat == 340282366920938450370194554744249067654nat) by (nonlinear_arith);
    assert(exp_fold(0xffffffffffffffffnat, 54) == 340282366920938450370194554744249067654nat);
    assert((0xffffffffffffffffnat / 0x200nat) % 2 == 1) by (nonlinear_arith);
    assert((0xffffffffffffffffnat / pow2(9)) % 2 == 1);
    assert((340282366920938450370194554744249067654nat * (16442624250578488721nat + 354nat * 0x10000000000000000 + 0x100000000000000000000000000000000nat))
        / 0x100000000000000000000000000000000nat == 340282366920938456916784581088008576543nat) by (nonlinear_arith);
    assert(exp_fold(0xffffffffffffffffnat, 55) == 340282366920938456916784581088008576543nat);
    assert((0xffffffffffffffffnat / 0x100nat) % 2 == 1) by (nonlinear_arith);
    assert((0xffffffffffffffffnat / pow2(8)) % 2 == 1);
    assert((340282366920938456916784581088008576543nat * (8221312125289228617nat + 177nat * 0x10000000000000000 + 0x100000000000000000000000000000000nat))
        / 0x100000000000000000000000000000000nat == 340282366920938460190079594259888378218nat) by (nonlinear_arith);
    assert(exp_fold(0xffffffffffffffffnat, 56) == 340282366920938460190079594259888378218nat);
    assert((0xffffffffffffffffnat / 0x80nat) % 2 == 1) by (nonlinear_arith);
    assert((0xffffffffffffffffnat / pow2(7)) % 2 == 1);
    assert((340282366920938460190079594259888378218nat * (13334028099499386180nat + 88nat * 0x10000000000000000 + 0x100000000000000000000000000000000nat))
        / 0x100000000000000000000000000000000nat == 340282366920938461826727100845828290862nat) by (nonlinear_arith);
    assert(exp_fold(0xffffffffffffffffnat, 57) == 340282366920938461826727100845828290862nat);
    assert((0xffffffffffffffffnat / 0x40nat) % 2 == 1) by (nonlinear_arith);
    assert((0xffffffffffffffffnat / pow2(6)) % 2 == 1);
    assert((340282366920938461826727100845828290862nat * (6667014049749692106nat + 44nat * 0x10000000000000000 + 0x100000000000000000000000000000000nat))
        / 0x100000000000000000000000000000000nat == 340282366920938462645050854138798250136nat) by (nonlinear_arith);
    assert(exp_fold(0xffffffffffffffffnat, 58) == 340282366920938462645050854138798250136nat);
    assert((0xffffffffffffffffnat / 0x20nat) % 2 == 1) by (nonlinear_arith);
    assert((0xffffffffffffffffnat / pow2(5)) % 2 == 1);
    assert((340282366920938462645050854138798250136nat * (3333507024874845807nat + 22nat * 0x10000000000000000 + 0x100000000000000000000000000000000nat))
        / 0x100000000000000000000000000000000nat == 340282366920938463054212730785283230511nat) by (nonlinear_arith);
    assert(exp_fold(0xffffffffffffffffnat, 59) == 340282366920938463054212730785283230511nat);
    assert((0xffffffffffffffffnat / 0x10nat) % 2 == 1) by (nonlinear_arith);
    assert((0xffffffffffffffffnat / pow2(4)) % 2 == 1);
    assert((340282366920938463054212730785283230511nat * (1666753512437422842nat + 11nat * 0x10000000000000000 + 0x100000000000000000000000000000000nat))
        / 0x100000000000000000000000000000000nat == 340282366920938463258793669108525720883nat) by (nonlinear_arith);
    assert(exp_fold(0xffffffffffffffffnat, 60) == 340282366920938463258793669108525720883nat);
    assert((0xffffffffffffffffnat / 0x8nat) % 2 == 1) by (nonlinear_arith);
    assert((0xffffffffffffffffnat / pow2(3)) % 2 == 1);
    assert((340282366920938463258793669108525720883nat * (10056748793073487213nat + 5nat * 0x10000000000000000 + 0x100000000000000000000000000000000nat))
        / 0x100000000000000000000000000000000nat == 340282366920938463361084138270146966114nat) by (nonlinear_arith);
    assert(exp_fold(0xffffffffffffffffnat, 61) == 340282366920938463361084138270146966114nat);
    assert((0xffffffffffffffffnat / 0x4nat) % 2 == 1) by (nonlinear_arith);
    assert((0xffffffffffffffffnat / pow2(2)) % 2 == 1);
    assert((340282366920938463361084138270146966114nat * (14251746433391519410nat + 2nat * 0x10000000000000000 + 0x100000000000000000000000000000000nat))
        / 0x100000000000000000000000000000000nat == 340282366920938463412229372850957588740nat) by (nonlinear_arith);
    assert(exp_fold(0xffffffffffffffffnat, 62) == 340282366920938463412229372850957588740nat);
    assert((0xffffffffffffffffnat / 0x2nat) % 2 == 1) by (nonlinear_arith);
    assert((0xffffffffffffffffnat / pow2(1)) % 2 == 1);
    assert((340282366920938463412229372850957588740nat * (7125873216695759704nat + 1nat * 0x10000000000000000 + 0x100000000000000000000000000000000nat))
        / 0x100000000000000000000000000000000nat == 340282366920938463437801990141362900056nat) by (nonlinear_arith);
    assert(exp_fold(0xffffffffffffffffnat, 63) == 340282366920938463437801990141362900056nat);
    assert((0xffffffffffffffffnat / 0x1nat) % 2 == 1) by (nonlinear_arith);
    assert((0xffffffffffffffffnat / pow2(0)) % 2 == 1);
    assert((340282366920938463437801990141362900056nat * (12786308645202655659nat + 0nat * 0x10000000000000000 + 0x100000000000000000000000000000000nat))
        / 0x100000000000000000000000000000000nat == 340282366920938463450588298786565555714nat) by (nonlinear_arith);
    assert(exp_fold(0xffffffffffffffffnat, 64) == 340282366920938463450588298786565555714nat);
}

/// At each step the bounding fold times the next factor stays below
/// `2^256`, so the accumulator product never overflows.
proof fn lemma_exp_step_bound(j: int)
    requires
        0 <= j < 64,
    ensures
        exp_fold(0xffffffffffffffffnat, j) * exp_mask(j)
            < 0x10000000000000000000000000000000000000000000000000000000000000000nat,
{
    lemma_exp_allones_chain();
    assert(170141183460469231731687303715884105728nat * (12896923290648804670nat + 7640891576956012808nat * 0x10000000000000000 + 0x100000000000000000000000000000000nat)
        < 0x10000000000000000000000000000000000000000000000000000000000000000nat) by (nonlinear_arith);
    assert(240615969168004511545033772477625056927nat * (10185530680776453612nat + 3490255227380126430nat * 0x10000000000000000 + 0x100000000000000000000000000000000nat)
        < 0x10000000000000000000000000000000000000000000000000000000000000000nat) by (nonlinear_arith);
    assert(286142222517866327586855861304318312413nat * (17854737389604993311nat + 1669572981167730125nat * 0x10000000000000000 + 0x100000000000000000000000000000000nat)
        < 0x10000000000000000000000000000000000000000000000000000000000000000nat) by (nonlinear_arith);
    assert(312040306297756043528438546211487503608nat * (10057302232697242467nat + 816707133613602345nat * 0x10000000000000000 + 0x100000000000000000000000000000000nat)
        < 0x10000000000000000000000000000000000000000000000000000000000000000nat) by (nonlinear_arith);
    assert(325855510927366467338765757798166302655nat * (8958942473441515517nat + 403931097166463918nat * 0x10000000000000000 + 0x100000000000000000000000000000000nat)
        < 0x10000000000000000000000000000000000000000000000000000000000000000nat) by (nonlinear_arith);
    assert(332990817489906152516528174760363655110nat * (17855306115364535784nat + 200871872941133542nat * 0x10000000000000000 + 0x100000000000000000000000000000000nat)
        < 0x10000000000000000000000000000000000000000000000000000000000000000nat) by (nonlinear_arith);
    assert(336616849754143321171240736068313607675nat * (5361163942339934783nat + 100163996173424344nat * 0x10000000000000000 + 0x100000000000000000000000000000000nat)
        < 0x10000000000000000000000000000000000000000000000000000000000000000nat) by (nonlinear_arith);
    assert(338444645961211524111694060679677685504nat * (3002515481205445955nat + 50014196964519265nat * 0x10000000000000000 + 0x100000000000000000000000000000000nat)
        < 0x10000000000000000000000000000000000000000000000000000000000000000nat) by (nonlinear_arith);
    assert(339362262485680770294711564297527942513nat * (18381954890662373275nat + 24990171141283489nat * 0x10000000000000000 + 0x100000000000000000000000000000000nat)
        < 0x10000000000000000000000000000000000000000000000000000000000000000nat) by (nonlinear_arith);
    assert(339822003293300968391941903755125245308nat * (7863777292665987087nat + 12490856599448656nat * 0x10000000000000000 + 0x100000000000000000000000000000000nat)
        < 0x10000000000000000000000000000000000000000000000000000000000000000nat) by (nonlinear_arith);
    assert(340052107201910159018235275086188756472nat * (2935407722259146207nat + 6244371414720417nat * 0x10000000000000000 + 0x100000000000000000000000000000000nat)
        < 0x10000000000000000000000000000000000000000000000000000000000000000nat) by (nonlinear_arith);
    assert(340167217578529594754386235778394637180nat * (4099144763823068965nat + 3121921530820282nat * 0x10000000000000000 + 0x100000000000000000000000000000000nat)
        < 0x10000000000000000000000000000000000000000000000000000000000000000nat) by (nonlinear_arith);
    assert(340224787378186065024124058177160890940nat * (7830867710921767997nat + 1560894726863213nat * 0x10000000000000000 + 0x100000000000000000000000000000000nat)
        < 0x10000000000000000000000000000000000000000000000000000000000000000nat) by (nonlinear_arith);
    assert(340253575931572222344808541527975417842nat * (15030865137112770483nat + 780430854493329nat * 0x10000000000000000 + 0x100000000000000000000000000000000nat)
        < 0x10000000000000000000000000000000000000000000000000000000000000000nat) by (nonlinear_arith);
    assert(340267971121744950115931523046122852693nat * (6072397496287043622nat + 390211300099399nat * 0x10000000000000000 + 0x100000000000000000000000000000000nat)
        < 0x10000000000000000000000000000000000000000000000000000000000000000nat) by (nonlinear_arith);
    assert(340275168945212498243824544813253388194nat * (439311289473205244nat + 195104618273796nat * 0x10000000000000000 + 0x100000000000000000000000000000000nat)
        < 0x10000000000000000000000000000000000000000000000000000000000000000nat) by (nonlinear_arith);
    assert(340278767914042977419818114301068315650nat * (3381501736036650923nat + 97552051194286nat * 0x10000000000000000 + 0x100000000000000000000000000000000nat)
        < 0x10000000000000000000000000000000000000000000000000000000000000000nat) by (nonlinear_arith);
    assert(340280567412732569420752589735540255560nat * (11878183186495682505nat + 48775961111660nat * 0x10000000000000000 + 0x100000000000000000000000000000000nat)
        < 0x10000000000000000000000000000000000000000000000000000000000000000nat) by (nonlinear_arith);
    assert(340281467165645975541538300962849720600nat * (436289341605138797nat + 24387964434481nat * 0x10000000000000000 + 0x100000000000000000000000000000000nat)
        < 0x10000000000000000000000000000000000000000000000000000000000000000nat) by (nonlinear_arith);
    assert(340281917042994833884159925800699069117nat * (15706463035261523811nat + 12193978186905nat * 0x10000000000000000 + 0x100000000000000000000000000000000nat)
        < 0x10000000000000000000000000000000000000000000000000000000000000000nat) by (nonlinear_arith);
    assert(340282141981892302220047427165751816662nat * (10951006159863813672nat + 6096988085869nat * 0x10000000000000000 + 0x100000000000000000000000000000000nat)
        < 0x10000000000000000000000000000000000000000000000000000000000000000nat) by (nonlinear_arith);
    assert(340282254451396796222137840463944662868nat * (100320500613761579nat + 3048493791039nat * 0x10000000000000000 + 0x100000000000000000000000000000000nat)
        < 0x10000000000000000000000000000000000000000000000000000000000000000nat) by (nonlinear_arith);
    assert(340282310686162983187095027395548206928nat * (10331567486136386213nat + 1524246832545nat * 0x10000000000000000 + 0x100000000000000000000000000000000nat)
        < 0x10000000000000000000000000000000000000000000000000000000000000000nat) by (nonlinear_arith);
    assert(340282338803549561661223530468750597220nat * (5442291021268196350nat + 762123400529nat * 0x10000000000000000 + 0x100000000000000000000000000000000nat)
        < 0x10000000000000000000000000000000000000000000000000000000000000000nat) by (nonlinear_arith);
    assert(340282352862243722146284248737311181589nat * (14320987186005390063nat + 381061696328nat * 0x10000000000000000 + 0x100000000000000000000000000000000nat)
        < 0x10000000000000000000000000000000000000000000000000000000000000000nat) by (nonlinear_arith);
    assert(340282359891591020200824223221658257072nat * (7754798478847538042nat + 190530847180nat * 0x10000000000000000 + 0x100000000000000000000000000000000nat)
        < 0x10000000000000000000000000000000000000000000000000000000000000000nat) by (nonlinear_arith);
    assert(340282363406264723681097926634783937744nat * (4025998895411732230nat + 95265423344nat * 0x10000000000000000 + 0x100000000000000000000000000000000nat)
        < 0x10000000000000000000000000000000000000000000000000000000000000000nat) by (nonlinear_arith);
    assert(340282365163601589034485871425767421582nat * (11273524327873463545nat + 47632711610nat * 0x10000000000000000 + 0x100000000000000000000000000000000nat)
        < 0x10000000000000000000000000000000000000000000000000000000000000000nat) by (nonlinear_arith);
    assert(340282366042270025114492637597574848903nat * (17175265786997884963nat + 23816355789nat * 0x10000000000000000 + 0x100000000000000000000000000000000nat)
        < 0x10000000000000000000000000000000000000000000000000000000000000000nat) by (nonlinear_arith);
    assert(340282366481604244005324221690708811889nat * (2248886808180014672nat + 11908177891nat * 0x10000000000000000 + 0x100000000000000000000000000000000nat)
        < 0x10000000000000000000000000000000000000000000000000000000000000000nat) by (nonlinear_arith);
    assert(340282366701271353663447064309477272485nat * (11068971934550065103nat + 5954088944nat * 0x10000000000000000 + 0x100000000000000000000000000000000nat)
        < 0x10000000000000000000000000000000000000000000000000000000000000000nat) by (nonlinear_arith);
    assert(340282366811104908545685248301961112204nat * (1103089072964130132nat + 2977044472nat * 0x10000000000000000 + 0x100000000000000000000000000000000nat)
        < 0x10000000000000000000000000000000000000000000000000000000000000000nat) by (nonlinear_arith);
    assert(340282366866021686000098530973984089377nat * (17890439386703286701nat + 1488522235nat * 0x10000000000000000 + 0x100000000000000000000000000000000nat)
        < 0x10000000000000000000000000000000000000000000000000000000000000000nat) by (nonlinear_arith);
    assert(340282366893480074730628719979566611661nat * (17891629424345511116nat + 744261117nat * 0x10000000000000000 + 0x100000000000000000000000000000000nat)
        < 0x10000000000000000000000000000000000000000000000000000000000000000nat) by (nonlinear_arith);
    assert(340282366907209269096724701399828852398nat * (18099946172563701162nat + 372130558nat * 0x10000000000000000 + 0x100000000000000000000000000000000nat)
        < 0x10000000000000000000000000000000000000000000000000000000000000000nat) by (nonlinear_arith);
    assert(340282366914073866279980413839337495312nat * (9032662942166067630nat + 186065279nat * 0x10000000000000000 + 0x100000000000000000000000000000000nat)
        < 0x10000000000000000000000000000000000000000000000000000000000000000nat) by (nonlinear_arith);
    assert(340282366917506164871660200491437419610nat * (13735375971908885710nat + 93032639nat * 0x10000000000000000 + 0x100000000000000000000000000000000nat)
        < 0x10000000000000000000000000000000000000000000000000000000000000000nat) by (nonlinear_arith);
    assert(340282366919222314167513076425573935244nat * (16089978138801990413nat + 46516319nat * 0x10000000000000000 + 0x100000000000000000000000000000000nat)
        < 0x10000000000000000000000000000000000000000000000000000000000000000nat) by (nonlinear_arith);
    assert(340282366920080388815442760044663850529nat * (17268090635253964293nat + 23258159nat * 0x10000000000000000 + 0x100000000000000000000000000000000nat)
        < 0x10000000000000000000000000000000000000000000000000000000000000000nat) by (nonlinear_arith);
    assert(340282366920509426139408413267214224926nat * (17857349736731306316nat + 11629079nat * 0x10000000000000000 + 0x100000000000000000000000000000000nat)
        < 0x10000000000000000000000000000000000000000000000000000000000000000nat) by (nonlinear_arith);
    assert(340282366920723944801391442731740766610nat * (18152030000782816061nat + 5814539nat * 0x10000000000000000 + 0x100000000000000000000000000000000nat)
        < 0x10000000000000000000000000000000000000000000000000000000000000000nat) by (nonlinear_arith);
    assert(340282366920831204132383008177316876110nat * (18299382811136780613nat + 2907269nat * 0x10000000000000000 + 0x100000000000000000000000000000000nat)
        < 0x10000000000000000000000000000000000000000000000000000000000000000nat) by (nonlinear_arith);
    assert(340282366920884833797878803578433140529nat * (18373062385895815308nat + 1453634nat * 0x10000000000000000 + 0x100000000000000000000000000000000nat)
        < 0x10000000000000000000000000000000000000000000000000000000000000000nat) by (nonlinear_arith);
    assert(340282366920911648630626704448573325156nat * (9186530928816069952nat + 726817nat * 0x10000000000000000 + 0x100000000000000000000000000000000nat)
        < 0x10000000000000000000000000000000000000000000000000000000000000000nat) by (nonlinear_arith);
    assert(340282366920925056047000655676038930573nat * (13816637435229851358nat + 363408nat * 0x10000000000000000 + 0x100000000000000000000000000000000nat)
        < 0x10000000000000000000000000000000000000000000000000000000000000000nat) by (nonlinear_arith);
    assert(340282366920931759755187631487870611557nat * (6908318701106685822nat + 181704nat * 0x10000000000000000 + 0x100000000000000000000000000000000nat)
        < 0x10000000000000000000000000000000000000000000000000000000000000000nat) by (nonlinear_arith);
    assert(340282366920935111609281119443311171617nat * (3454159346426282946nat + 90852nat * 0x10000000000000000 + 0x100000000000000000000000000000000nat)
        < 0x10000000000000000000000000000000000000000000000000000000000000000nat) by (nonlinear_arith);
    assert(340282366920936787536327863433412631538nat * (1727079672181376481nat + 45426nat * 0x10000000000000000 + 0x100000000000000000000000000000000nat)
        < 0x10000000000000000000000000000000000000000000000000000000000000000nat) by (nonlinear_arith);
    assert(340282366920937625499851235431558656470nat * (863539835832746992nat + 22713nat * 0x10000000000000000 + 0x100000000000000000000000000000000nat)
        < 0x10000000000000000000000000000000000000000000000000000000000000000nat) by (nonlinear_arith);
    assert(340282366920938044481612921431405492678nat * (9655141954706663992nat + 11356nat * 0x10000000000000000 + 0x100000000000000000000000000000000nat)
        < 0x10000000000000000000000000000000000000000000000000000000000000000nat) by (nonlinear_arith);
    assert(340282366920938253972493764431522366718nat * (4827570977337210668nat + 5678nat * 0x10000000000000000 + 0x100000000000000000000000000000000nat)
        < 0x10000000000000000000000000000000000000000000000000000000000000000nat) by (nonlinear_arith);
    assert(340282366920938358717934185931629167722nat * (2413785488664575002nat + 2839nat * 0x10000000000000000 + 0x100000000000000000000000000000000nat)
        < 0x10000000000000000000000000000000000000000000000000000000000000000nat) by (nonlinear_arith);
    assert(340282366920938411090654396681694659220nat * (10430264781186055726nat + 1419nat * 0x10000000000000000 + 0x100000000000000000000000000000000nat)
        < 0x10000000000000000000000000000000000000000000000000000000000000000nat) by (nonlinear_arith);
    assert(340282366920938437277014502056730427718nat * (14438504427447551775nat + 709nat * 0x10000000000000000 + 0x100000000000000000000000000000000nat)
        < 0x10000000000000000000000000000000000000000000000000000000000000000nat) by (nonlinear_arith);
    assert(340282366920938450370194554744249067654nat * (16442624250578488721nat + 354nat * 0x10000000000000000 + 0x100000000000000000000000000000000nat)
        < 0x10000000000000000000000000000000000000000000000000000000000000000nat) by (nonlinear_arith);
    assert(340282366920938456916784581088008576543nat * (8221312125289228617nat + 177nat * 0x10000000000000000 + 0x100000000000000000000000000000000nat)
        < 0x10000000000000000000000000000000000000000000000000000000000000000nat) by (nonlinear_arith);
    assert(340282366920938460190079594259888378218nat * (13334028099499386180nat + 88nat * 0x10000000000000000 + 0x100000000000000000000000000000000nat)
        < 0x10000000000000000000000000000000000000000000000000000000000000000nat) by (nonlinear_arith);
    assert(340282366920938461826727100845828290862nat * (6667014049749692106nat + 44nat * 0x10000000000000000 + 0x100000000000000000000000000000000nat)
        < 0x10000000000000000000000000000000000000000000000000000000000000000nat) by (nonlinear_arith);
    assert(340282366920938462645050854138798250136nat * (3333507024874845807nat + 22nat * 0x10000000000000000 + 0x100000000000000000000000000000000nat)
        < 0x10000000000000000000000000000000000000000000000000000000000000000nat) by (nonlinear_arith);
    assert(340282366920938463054212730785283230511nat * (1666753512437422842nat + 11nat * 0x10000000000000000 + 0x100000000000000000000000000000000nat)
        < 0x10000000000000000000000000000000000000000000000000000000000000000nat) by (nonlinear_arith);
    assert(340282366920938463258793669108525720883nat * (10056748793073487213nat + 5nat * 0x10000000000000000 + 0x100000000000000000000000000000000nat)
        < 0x10000000000000000000000000000000000000000000000000000000000000000nat) by (nonlinear_arith);
    assert(340282366920938463361084138270146966114nat * (14251746433391519410nat + 2nat * 0x10000000000000000 + 0x100000000000000000000000000000000nat)
        < 0x10000000000000000000000000000000000000000000000000000000000000000nat) by (nonlinear_arith);
    assert(340282366920938463412229372850957588740nat * (7125873216695759704nat + 1nat * 0x10000000000000000 + 0x100000000000000000000000000000000nat)
        < 0x10000000000000000000000000000000000000000000000000000000000000000nat) by (nonlinear_arith);
    assert(340282366920938463437801990141362900056nat * (12786308645202655659nat + 0nat * 0x10000000000000000 + 0x100000000000000000000000000000000nat)
        < 0x10000000000000000000000000000000000000000000000000000000000000000nat) by (nonlinear_arith);
}

/// Every bit of an all-ones 64-bit fraction is set.
proof fn lemma_allones64_bit(k: int)
    requires
        0 <= k < 64,
    ensures
        (0xffffffffffffffffnat / pow2(k as nat)) % 2 == 1,
{
    lemma2_to64();
    lemma_pow2_pos(k as nat);
    lemma_pow2_pos((63 - k) as nat);
    lemma_pow2_adds(k as nat, (64 - k) as nat);
    lemma_pow2_adds((63 - k) as nat, 1);
    let q = pow2((64 - k) as nat) - 1;
    let r = pow2(k as nat) - 1;
    assert((pow2((64 - k) as nat) - 1) * pow2(k as nat)
        == pow2((64 - k) as nat) * pow2(k as nat) - pow2(k as nat)) by (nonlinear_arith);
    lemma_fundamental_div_mod_converse(0xffffffffffffffff, pow2(k as nat) as int, q, r);
    lemma_fundamental_div_mod_converse(q, 2, pow2((63 - k) as nat) as int - 1, 1);
}

/// Folding any fraction stays below folding every bit: a skipped factor
/// can only keep the accumulator smaller.
proof fn lemma_exp_fold_max(f: nat, j: int)
    requires
        0 <= j <= 64,
    ensures
        exp_fold(f, j) <= exp_fold(0xffffffffffffffffnat, j),
    decreases j,
{
    if j > 0 {
        lemma_exp_fold_max(f, j - 1);
        let prev = exp_fold(f, j - 1);
        let bprev = exp_fold(0xffffffffffffffffnat, j - 1);
        lemma_allones64_bit(64 - j);
        lemma_exp_mask_ge(j - 1);
        let c = exp_mask(j - 1);
        // the bounding fold applies the factor, and grows by it
        lemma_mul_inequality(0x100000000000000000000000000000000nat as int, c as int, bprev as int);
        lemma_div_multiples_vanish(bprev as int, 0x100000000000000000000000000000000nat as int);
        lemma_div_is_ordered(
            (bprev * 0x100000000000000000000000000000000nat) as int,
            (bprev * c) as int,
            0x100000000000000000000000000000000nat as int,
        );
        if (f / pow2((64 - j) as nat)) % 2 == 1 {
            lemma_mul_inequality(prev as int, bprev as int, c as int);
            lemma_div_is_ordered(
                (prev * c) as int,
                (bprev * c) as int,
                0x100000000000000000000000000000000nat as int,
            );
        }
    }
}

/// The fold of a zero fraction never moves from `2^127`.
proof fn lemma_exp_fold_zero()
    ensures
        exp_fold(0, 64) == 0x80000000000000000000000000000000nat,
{
    lemma2_to64();
    lemma2_to64_rest();
    assert(exp_fold(0, 0) == 0x80000000000000000000000000000000nat);
    assert((0nat / 0x8000000000000000nat) % 2 == 0) by (nonlinear_arith);
    assert((0nat / pow2(63)) % 2 == 0);
    assert(exp_fold(0, 1) == 0x80000000000000000000000000000000nat);
    assert((0nat / 0x4000000000000000nat) % 2 == 0) by (nonlinear_arith);
    assert((0nat / pow2(62)) % 2 == 0);
    assert(exp_fold(0, 2) == 0x80000000000000000000000000000000nat);
    assert((0nat / 0x2000000000000000nat) % 2 == 0) by (nonlinear_arith);
    assert((0nat / pow2(61)) % 2 == 0);
    assert(exp_fold(0, 3) == 0x80000000000000000000000000000000nat);
    assert((0nat / 0x1000000000000000nat) % 2 == 0) by (nonlinear_arith);
    assert((0nat / pow2(60)) % 2 == 0);
    assert(exp_fold(0, 4) == 0x80000000000000000000000000000000nat);
    assert((0nat / 0x800000000000000nat) % 2 == 0) by (nonlinear_arith);
    assert((0nat / pow2(59)) % 2 == 0);
    assert(exp_fold(0, 5) == 0x80000000000000000000000000000000nat);
    assert((0nat / 0x400000000000000nat) % 2 == 0) by (nonlinear_arith);
    assert((0nat / pow2(58)) % 2 == 0);
    assert(exp_fold(0, 6) == 0x80000000000000000000000000000000nat);
    assert((0nat / 0x200000000000000nat) % 2 == 0) by (nonlinear_arith);
    assert((0nat / pow2(57)) % 2 == 0);
    assert(exp_fold(0, 7) == 0x80000000000000000000000000000000nat);
    assert((0nat / 0x100000000000000nat) % 2 == 0) by (nonlinear_arith);
    assert((0nat / pow2(56)) % 2 == 0);
    assert(exp_fold(0, 8) == 0x80000000000000000000000000000000nat);
    assert((0nat / 0x80000000000000nat) % 2 == 0) by (nonlinear_arith);
    assert((0nat / pow2(55)) % 2 == 0);
    assert(exp_fold(0, 9) == 0x80000000000000000000000000000000nat);
    assert((0nat / 0x40000000000000nat) % 2 == 0) by (nonlinear_arith);
    assert((0nat / pow2(54)) % 2 == 0);
    assert(exp_fold(0, 10) == 0x80000000000000000000000000000000nat);
    assert((0nat / 0x20000000000000nat) % 2 == 0) by (nonlinear_arith);
    assert((0nat / pow2(53)) % 2 == 0);
    assert(exp_fold(0, 11) == 0x80000000000000000000000000000000nat);
    assert((0nat / 0x10000000000000nat) % 2 == 0) by (nonlinear_arith);
    assert((0nat / pow2(52)) % 2 == 0);
    assert(exp_fold(0, 12) == 0x80000000000000000000000000000000nat);
    assert((0nat / 0x8000000000000nat) % 2 == 0) by (nonlinear_arith);
    assert((0nat / pow2(51)) % 2 == 0);
    assert(exp_fold(0, 13) == 0x80000000000000000000000000000000nat);
    assert((0nat / 0x4000000000000nat) % 2 == 0) by (nonlinear_arith);
    assert((0nat / pow2(50)) % 2 == 0);
    assert(exp_fold(0, 14) == 0x80000000000000000000000000000000nat);
    assert((0nat / 0x2000000000000nat) % 2 == 0) by (nonlinear_arith);
    assert((0nat / pow2(49)) % 2 == 0);
    assert(exp_fold(0, 15) == 0x80000000000000000000000000000000nat);
    assert((0nat / 0x1000000000000nat) % 2 == 0) by (nonlinear_arith);
    assert((0nat / pow2(48)) % 2 == 0);
    assert(exp_fold(0, 16) == 0x80000000000000000000000000000000nat);
    assert((0nat / 0x800000000000nat) % 2 == 0) by (nonlinear_arith);
    assert((0nat / pow2(47)) % 2 == 0);
    assert(exp_fold(0, 17) == 0x80000000000000000000000000000000nat);
    assert((0nat / 0x400000000000nat) % 2 == 0) by (nonlinear_arith);
    assert((0nat / pow2(46)) % 2 == 0);
    assert(exp_fold(0, 18) == 0x80000000000000000000000000000000nat);
    assert((0nat / 0x200000000000nat) % 2 == 0) by (nonlinear_arith);
    assert((0nat / pow2(45)) % 2 == 0);
    assert(exp_fold(0, 19) == 0x80000000000000000000000000000000nat);
    assert((0nat / 0x100000000000nat) % 2 == 0) by (nonlinear_arith);
    assert((0nat / pow2(44)) % 2 == 0);
    assert(exp_fold(0, 20) == 0x80000000000000000000000000000000nat);
    assert((0nat / 0x80000000000nat) % 2 == 0) by (nonlinear_arith);
    assert((0nat / pow2(43)) % 2 == 0);
    assert(exp_fold(0, 21) == 0x80000000000000000000000000000000nat);
    assert((0nat / 0x40000000000nat) % 2 == 0) by (nonlinear_arith);
    assert((0nat / pow2(42)) % 2 == 0);
    assert(exp_fold(0, 22) == 0x80000000000000000000000000000000nat);
    assert((0nat / 0x20000000000nat) % 2 == 0) by (nonlinear_arith);
    assert((0nat / pow2(41)) % 2 == 0);
    assert(exp_fold(0, 23) == 0x80000000000000000000000000000000nat);
    assert((0nat / 0x10000000000nat) % 2 == 0) by (nonlinear_arith);
    assert((0nat / pow2(40)) % 2 == 0);
    assert(exp_fold(0, 24) == 0x80000000000000000000000000000000nat);
    assert((0nat / 0x8000000000nat) % 2 == 0) by (nonlinear_arith);
    assert((0nat / pow2(39)) % 2 == 0);
    assert(exp_fold(0, 25) == 0x80000000000000000000000000000000nat);
    assert((0nat / 0x4000000000nat) % 2 == 0) by (nonlinear_arith);
    assert((0nat / pow2(38)) % 2 == 0);
    assert(exp_fold(0, 26) == 0x80000000000000000000000000000000nat);
    assert((0nat / 0x2000000000nat) % 2 == 0) by (nonlinear_arith);
    assert((0nat / pow2(37)) % 2 == 0);
    assert(exp_fold(0, 27) == 0x80000000000000000000000000000000nat);
    assert((0nat / 0x1000000000nat) % 2 == 0) by (nonlinear_arith);
    assert((0nat / pow2(36)) % 2 == 0);
    assert(exp_fold(0, 28) == 0x80000000000000000000000000000000nat);
    assert((0nat / 0x800000000nat) % 2 == 0) by (nonlinear_arith);
    assert((0nat / pow2(35)) % 2 == 0);
    assert(exp_fold(0, 29) == 0x80000000000000000000000000000000nat);
    assert((0nat / 0x400000000nat) % 2 == 0) by (nonlinear_arith);
    assert((0nat / pow2(34)) % 2 == 0);
    assert(exp_fold(0, 30) == 0x80000000000000000000000000000000nat);
    assert((0nat / 0x200000000nat) % 2 == 0) by (nonlinear_arith);
    assert((0nat / pow2(33)) % 2 == 0);
    assert(exp_fold(0, 31) == 0x80000000000000000000000000000000nat);
    assert((0nat / 0x100000000nat) % 2 == 0) by (nonlinear_arith);
    assert((0nat / pow2(32)) % 2 == 0);
    assert(exp_fold(0, 32) == 0x80000000000000000000000000000000nat);
    assert((0nat / 0x80000000nat) % 2 == 0) by (nonlinear_arith);
    assert((0nat / pow2(31)) % 2 == 0);
    assert(exp_fold(0, 33) == 0x80000000000000000000000000000000nat);
    assert((0nat / 0x40000000nat) % 2 == 0) by (nonlinear_arith);
    assert((0nat / pow2(30)) % 2 == 0);
    assert(exp_fold(0, 34) == 0x80000000000000000000000000000000nat);
    assert((0nat / 0x20000000nat) % 2 == 0) by (nonlinear_arith);
    assert((0nat / pow2(29)) % 2 == 0);
    assert(exp_fold(0, 35) == 0x80000000000000000000000000000000nat);
    assert((0nat / 0x10000000nat) % 2 == 0) by (nonlinear_arith);
    assert((0nat / pow2(28)) % 2 == 0);
    assert(exp_fold(0, 36) == 0x80000000000000000000000000000000nat);
    assert((0nat / 0x8000000nat) % 2 == 0) by (nonlinear_arith);
    assert((0nat / pow2(27)) % 2 == 0);
    assert(exp_fold(0, 37) == 0x80000000000000000000000000000000nat);
    assert((0nat / 0x4000000nat) % 2 == 0) by (nonlinear_arith);
    assert((0nat / pow2(26)) % 2 == 0);
    assert(exp_fold(0, 38) == 0x80000000000000000000000000000000nat);
    assert((0nat / 0x2000000nat) % 2 == 0) by (nonlinear_arith);
    assert((0nat / pow2(25)) % 2 == 0);
    assert(exp_fold(0, 39) == 0x80000000000000000000000000000000nat);
    assert((0nat / 0x1000000nat) % 2 == 0) by (nonlinear_arith);
    assert((0nat / pow2(24)) % 2 == 0);
    assert(exp_fold(0, 40) == 0x80000000000000000000000000000000nat);
    assert((0nat / 0x800000nat) % 2 == 0) by (nonlinear_arith);
    assert((0nat / pow2(23)) % 2 == 0);
    assert(exp_fold(0, 41) == 0x80000000000000000000000000000000nat);
    assert((0nat / 0x400000nat) % 2 == 0) by (nonlinear_arith);
    assert((0nat / pow2(22)) % 2 == 0);
    assert(exp_fold(0, 42) == 0x80000000000000000000000000000000nat);
    assert((0nat / 0x200000nat) % 2 == 0) by (nonlinear_arith);
    assert((0nat / pow2(21)) % 2 == 0);
    assert(exp_fold(0, 43) == 0x80000000000000000000000000000000nat);
    assert((0nat / 0x100000nat) % 2 == 0) by (nonlinear_arith);
    assert((0nat / pow2(20)) % 2 == 0);
    assert(exp_fold(0, 44) == 0x80000000000000000000000000000000nat);
    assert((0nat / 0x80000nat) % 2 == 0) by (nonlinear_arith);
    assert((0nat / pow2(19)) % 2 == 0);
    assert(exp_fold(0, 45) == 0x80000000000000000000000000000000nat);
    assert((0nat / 0x40000nat) % 2 == 0) by (nonlinear_arith);
    assert((0nat / pow2(18)) % 2 == 0);
    assert(exp_fold(0, 46) == 0x80000000000000000000000000000000nat);
    assert((0nat / 0x20000nat) % 2 == 0) by (nonlinear_arith);
    assert((0nat / pow2(17)) % 2 == 0);
    assert(exp_fold(0, 47) == 0x80000000000000000000000000000000nat);
    assert((0nat / 0x10000nat) % 2 == 0) by (nonlinear_arith);
    assert((0nat / pow2(16)) % 2 == 0);
    assert(exp_fold(0, 48) == 0x80000000000000000000000000000000nat);
    assert((0nat / 0x8000nat) % 2 == 0) by (nonlinear_arith);
    assert((0nat / pow2(15)) % 2 == 0);
    assert(exp_fold(0, 49) == 0x80000000000000000000000000000000nat);
    assert((0nat / 0x4000nat) % 2 == 0) by (nonlinear_arith);
    assert((0nat / pow2(14)) % 2 == 0);
    assert(exp_fold(0, 50) == 0x80000000000000000000000000000000nat);
    assert((0nat / 0x2000nat) % 2 == 0) by (nonlinear_arith);
    assert((0nat / pow2(13)) % 2 == 0);
    assert(exp_fold(0, 51) == 0x80000000000000000000000000000000nat);
    assert((0nat / 0x1000nat) % 2 == 0) by (nonlinear_arith);
    assert((0nat / pow2(12)) % 2 == 0);
    assert(exp_fold(0, 52) == 0x80000000000000000000000000000000nat);
    assert((0nat / 0x800nat) % 2 == 0) by (nonlinear_arith);
    assert((0nat / pow2(11)) % 2 == 0);
    assert(exp_fold(0, 53) == 0x80000000000000000000000000000000nat);
    assert((0nat / 0x400nat) % 2 == 0) by (nonlinear_arith);
    assert((0nat / pow2(10)) % 2 == 0);
    assert(exp_fold(0, 54) == 0x80000000000000000000000000000000nat);
    assert((0nat / 0x200nat) % 2 == 0) by (nonlinear_arith);
    assert((0nat / pow2(9)) % 2 == 0);
    assert(exp_fold(0, 55) == 0x80000000000000000000000000000000nat);
    assert((0nat / 0x100nat) % 2 == 0) by (nonlinear_arith);
    assert((0nat / pow2(8)) % 2 == 0);
    assert(exp_fold(0, 56) == 0x80000000000000000000000000000000nat);
    assert((0nat / 0x80nat) % 2 == 0) by (nonlinear_arith);
    assert((0nat / pow2(7)) % 2 == 0);
    assert(exp_fold(0, 57) == 0x80000000000000000000000000000000nat);
    assert((0nat / 0x40nat) % 2 == 0) by (nonlinear_arith);
    assert((0nat / pow2(6)) % 2 == 0);
    assert(exp_fold(0, 58) == 0x80000000000000000000000000000000nat);
    assert((0nat / 0x20nat) % 2 == 0) by (nonlinear_arith);
    assert((0nat / pow2(5)) % 2 == 0);
    assert(exp_fold(0, 59) == 0x80000000000000000000000000000000nat);
    assert((0nat / 0x10nat) % 2 == 0) by (nonlinear_arith);
    assert((0nat / pow2(4)) % 2 == 0);
    assert(exp_fold(0, 60) == 0x80000000000000000000000000000000nat);
    assert((0nat / 0x8nat) % 2 == 0) by (nonlinear_arith);
    assert((0nat / pow2(3)) % 2 == 0);
    assert(exp_fold(0, 61) == 0x80000000000000000000000000000000nat);
    assert((0nat / 0x4nat) % 2 == 0) by (nonlinear_arith);
    assert((0nat / pow2(2)) % 2 == 0);
    assert(exp_fold(0, 62) == 0x80000000000000000000000000000000nat);
    assert((0nat / 0x2nat) % 2 == 0) by (nonlinear_arith);
    assert((0nat / pow2(1)) % 2 == 0);
    assert(exp_fold(0, 63) == 0x80000000000000000000000000000000nat);
    assert((0nat / 0x1nat) % 2 == 0) by (nonlinear_arith);
    assert((0nat / pow2(0)) % 2 == 0);
    assert(exp_fold(0, 64) == 0x80000000000000000000000000000000nat);
}

/// At whole exponents the result is the exact power of two: the
/// exponential is strictly increasing along them.
pub proof fn lemma_exp2_at_integers(q: int)
    requires
        0 <= q <= 63,
    ensures
        exp2_spec(q * 0x10000000000000000) == pow2((64 + q) as nat),
{
    let x = q * 0x10000000000000000;
    assert(q * 0x10000000000000000 >= 0) by (nonlinear_arith)
        requires 0 <= q;
    assert(q * 0x10000000000000000 < 0x400000000000000000) by (nonlinear_arith)
        requires q <= 63;
    lemma_fundamental_div_mod_converse(x, 0x10000000000000000, q, 0);
    lemma_exp_fold_zero();
    lemma2_to64();
    lemma2_to64_rest();
    lemma_pow2_adds(64, 63);
    assert(0x10000000000000000nat * 0x8000000000000000nat
        == 0x80000000000000000000000000000000nat) by (nonlinear_arith);
    lemma_pow2_subtracts((63 - q) as nat, 127);
}

/// One exactly, in Q64.64, at exponent zero.
pub proof fn lemma_exp2_zero()
    ensures
        exp2_spec(0) == 0x10000000000000000,
{
    lemma_exp2_at_integers(0);
    lemma2_to64();
    lemma2_to64_rest();
}

/// Along whole exponents the exponential strictly increases.
pub proof fn lemma_exp2_strict_at_integers(q1: int, q2: int)
    requires
        0 <= q1 < q2 <= 63,
    ensures
        exp2_spec(q1 * 0x10000000000000000) < exp2_spec(q2 * 0x10000000000000000),
{
    lemma_exp2_at_integers(q1);
    lemma_exp2_at_integers(q2);
    lemma_pow2_strictly_increases((64 + q1) as nat, (64 + q2) as nat);
}

/// Below the negative saturation threshold the result is exactly zero.
pub proof fn lemma_exp2_underflow(x: int)
    requires
        x < -0x400000000000000000,
    ensures
        exp2_spec(x) == 0,
{
}

/// With the fractional part fixed, the result never decreases as the
/// exponent grows.
pub proof fn lemma_exp2_monotone_in_integer_part(x1: int, x2: int)
    requires
        x1 <= x2,
        x2 < 0x400000000000000000,
        x1 % 0x10000000000000000 == x2 % 0x10000000000000000,
    ensures
        exp2_spec(x1) <= exp2_spec(x2),
{
    if x1 < -0x400000000000000000 {
        // the lower point has underflowed to zero
    } else {
        let d = 0x10000000000000000;
        let q1 = x1 / d;
        let q2 = x2 / d;
        lemma_div_is_ordered(x1, x2, d);
        let mid = exp_fold((x1 % d) as nat, 64);
        if q1 < q2 {
            lemma_pow2_strictly_increases((63 - q2) as nat, (63 - q1) as nat);
            lemma_pow2_pos((63 - q2) as nat);
            lemma_div_is_ordered_by_denominator(
                mid as int,
                pow2((63 - q2) as nat) as int,
                pow2((63 - q1) as nat) as int,
            );
        }
    }
}

/// Computes `2^(x / 2^64)` in Q64.64. The caller keeps the exponent below
/// the overflow threshold; exponents below the underflow threshold give
/// zero exactly.
pub fn exp2(x: i128) -> (r: u128)
    requires
        x < 0x400000000000000000,
    ensures
        r == exp2_spec(x as int),
{
    if x < -0x400000000000000000 {
        return 0;
    }
    let (q, f): (i128, u64) = if x >= 0 {
        let xu: u128 = x as u128;
        let qv: i128 = (xu / 0x10000000000000000) as i128;
        let fv: u64 = (xu % 0x10000000000000000) as u64;
        proof {
            lemma_fundamental_div_mod(xu as int, 0x10000000000000000);
            lemma_fundamental_div_mod_converse(
                x as int,
                0x10000000000000000,
                qv as int,
                fv as int,
            );
        }
        (qv, fv)
    } else {
        let m: u128 = (-(x + 1)) as u128;
        let a: u128 = m / 0x10000000000000000;
        let b: u128 = m % 0x10000000000000000;
        proof {
            lemma_fundamental_div_mod(m as int, 0x10000000000000000);
        }
        let qv: i128 = -1 - (a as i128);
        let fv: u64 = 0xffffffffffffffff - (b as u64);
        proof {
            lemma_fundamental_div_mod_converse(
                x as int,
                0x10000000000000000,
                qv as int,
                fv as int,
            );
        }
        (qv, fv)
    };
    let ghost xq: int = (x as int) / 0x10000000000000000;
    let ghost xf: nat = ((x as int) % 0x10000000000000000) as nat;
    proof {
        lemma2_to64();
        lemma_pow2_literals();
        assert(0x3fffffffffffffffffint == 63 * 0x10000000000000000 + 0xffffffffffffffff)
            by (nonlinear_arith);
        lemma_fundamental_div_mod_converse(0x3fffffffffffffffff, 0x10000000000000000, 63, 0xffffffffffffffff);
        lemma_div_is_ordered(x as int, 0x3fffffffffffffffff, 0x10000000000000000);
    }
    let mut acc = U256::from_limbs(0, 0x8000000000000000, 0, 0);
    let mut p: u64 = 0x8000000000000000;
    let mut j: usize = 0;
    while j < 64
        invariant
            j <= 64,
            f == xf,
            j < 64 ==> p == pow2((63 - j) as nat),
            acc.as_nat() == exp_fold(xf, j as int),
            acc.as_nat() <= exp_fold(0xffffffffffffffffnat, j as int),
        decreases 64 - j,
    {
        proof {
            lemma_pow2_literals();
            lemma_pow2_pos((63 - j) as nat);
        }
        if (f / p) % 2 == 1 {
            let m = exp_mask_limbs(j);
            proof {
                lemma_exp_step_bound(j as int);
                lemma_mul_inequality(
                    acc.as_nat() as int,
                    exp_fold(0xffffffffffffffffnat, j as int) as int,
                    m.as_nat() as int,
                );
            }
            let prod = u256_mul(&acc, &m);
            acc = u256_shr(&prod, 128);
        }
        proof {
            lemma_exp_fold_max(xf, j as int + 1);
        }
        if j < 63 {
            proof {
                lemma2_to64();
                lemma_pow2_adds((62 - j) as nat, 1);
                lemma_div_multiples_vanish(pow2((62 - j) as nat) as int, 2);
            }
            p = p / 2;
        }
        j = j + 1;
    }
    proof {
        lemma_exp_allones_chain();
        lemma_pow2_pos((63 - xq) as nat);
        lemma_div_nonincreasing(acc.as_nat() as int, pow2((63 - xq) as nat) as int);
    }
    let shift_i: i128 = 63 - q;
    let shifted = u256_shr(&acc, shift_i as u32);
    shifted.low_u128()
}

} // verus!
