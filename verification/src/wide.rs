//! Wide unsigned fixed-width integers.
//!
//! `U256` and `U512` are plain limb structs whose mathematical value is given
//! by [`U256::as_nat`] and [`U512::as_nat`]. Comparisons and conversions are
//! verified; the heavy arithmetic (add, sub, mul, div, shifts, square root)
//! is delegated to the `primitive-types` crate through trusted wrappers whose
//! contracts state the exact arithmetic result.
use vstd::prelude::*;

verus! {

use vstd::arithmetic::power2::pow2;
use vstd::arithmetic::power2::lemma2_to64;
use vstd::arithmetic::power2::lemma2_to64_rest;
use vstd::arithmetic::power2::lemma_pow2_adds;
use vstd::arithmetic::div_mod::lemma_fundamental_div_mod;
use vstd::arithmetic::div_mod::lemma_fundamental_div_mod_converse;

/// An unsigned 256-bit integer, least-significant limb first.
#[derive(Clone, Copy, Debug, PartialEq, Eq, Structural)]
pub struct U256 {
    pub w0: u64,
    pub w1: u64,
    pub w2: u64,
    pub w3: u64,
}

/// An unsigned 512-bit integer as a low and a high 256-bit half.
#[derive(Clone, Copy, Debug, PartialEq, Eq, Structural)]
pub struct U512 {
    pub lo: U256,
    pub hi: U256,
}

impl U256 {
    /// The number this value stands for.
    pub open spec fn as_nat(self) -> nat {
        (self.w0 as nat) + (self.w1 as nat) * 0x10000000000000000 + (self.w2 as nat)
            * 0x100000000000000000000000000000000nat + (self.w3 as nat)
            * 0x1000000000000000000000000000000000000000000000000nat
    }

    pub fn zero() -> (r: U256)
        ensures
            r.as_nat() == 0,
    {
        U256 { w0: 0, w1: 0, w2: 0, w3: 0 }
    }

    pub fn from_limbs(w0: u64, w1: u64, w2: u64, w3: u64) -> (r: U256)
        ensures
            r.as_nat() == (w0 as nat) + (w1 as nat) * 0x10000000000000000 + (w2 as nat)
                * 0x100000000000000000000000000000000nat + (w3 as nat)
                * 0x1000000000000000000000000000000000000000000000000nat,
    {
        U256 { w0, w1, w2, w3 }
    }

    pub fn from_u128(x: u128) -> (r: U256)
        ensures
            r.as_nat() == x,
    {
        let lo: u64 = (x % 0x10000000000000000) as u64;
        let hi: u64 = (x / 0x10000000000000000) as u64;
        proof {
            lemma_fundamental_div_mod(x as int, 0x10000000000000000);
        }
        U256 { w0: lo, w1: hi, w2: 0, w3: 0 }
    }

    pub fn from_u64(x: u64) -> (r: U256)
        ensures
            r.as_nat() == x,
    {
        U256 { w0: x, w1: 0, w2: 0, w3: 0 }
    }

    /// The value reduced modulo `2^128`.
    pub fn low_u128(&self) -> (r: u128)
        ensures
            r == self.as_nat() % 0x100000000000000000000000000000000nat,
            self.as_nat() < 0x100000000000000000000000000000000nat ==> r == self.as_nat(),
    {
        proof {
            lemma_low_u128(*self);
        }
        (self.w0 as u128) + (self.w1 as u128) * 0x10000000000000000
    }

    pub fn is_zero(&self) -> (r: bool)
        ensures
            r == (self.as_nat() == 0),
    {
        self.w0 == 0 && self.w1 == 0 && self.w2 == 0 && self.w3 == 0
    }

    /// `self <= other` on the represented numbers.
    pub fn le(&self, other: &U256) -> (r: bool)
        ensures
            r == (self.as_nat() <= other.as_nat()),
    {
        if self.w3 != other.w3 {
            self.w3 < other.w3
        } else if self.w2 != other.w2 {
            self.w2 < other.w2
        } else if self.w1 != other.w1 {
            self.w1 < other.w1
        } else {
            self.w0 <= other.w0
        }
    }

    /// `self < other` on the represented numbers.
    pub fn lt(&self, other: &U256) -> (r: bool)
        ensures
            r == (self.as_nat() < other.as_nat()),
    {
        if self.w3 != other.w3 {
            self.w3 < other.w3
        } else if self.w2 != other.w2 {
            self.w2 < other.w2
        } else if self.w1 != other.w1 {
            self.w1 < other.w1
        } else {
            self.w0 < other.w0
        }
    }
}

impl U512 {
    /// The number this value stands for.
    pub open spec fn as_nat(self) -> nat {
        self.lo.as_nat() + self.hi.as_nat()
            * 0x10000000000000000000000000000000000000000000000000000000000000000nat
    }

    pub fn from_u256(x: &U256) -> (r: U512)
        ensures
            r.as_nat() == x.as_nat(),
    {
        U512 { lo: *x, hi: U256::zero() }
    }

    pub fn is_zero(&self) -> (r: bool)
        ensures
            r == (self.as_nat() == 0),
    {
        self.lo.is_zero() && self.hi.is_zero()
    }

    /// Whether the value fits in 256 bits.
    pub fn fits_u256(&self) -> (r: bool)
        ensures
            r == (self.as_nat() < 0x10000000000000000000000000000000000000000000000000000000000000000nat),
    {
        proof {
            lemma_u256_bound(self.lo);
        }
        self.hi.is_zero()
    }

    /// The low 256 bits, exact when the value fits.
    pub fn to_u256(&self) -> (r: U256)
        requires
            self.as_nat() < 0x10000000000000000000000000000000000000000000000000000000000000000nat,
        ensures
            r.as_nat() == self.as_nat(),
    {
        proof {
            lemma_u256_bound(self.lo);
        }
        self.lo
    }
}

/// Every `U256` value is below `2^256`.
pub proof fn lemma_u256_bound(x: U256)
    ensures
        x.as_nat() < 0x10000000000000000000000000000000000000000000000000000000000000000nat,
{
}

/// Every `U512` value is below `2^512`.
pub proof fn lemma_u512_bound(x: U512)
    ensures
        x.as_nat()
            < 0x100000000000000000000000000000000000000000000000000000000000000000000000000000000000000000000000000000000000000000000000000000000nat,
{
    lemma_u256_bound(x.lo);
    lemma_u256_bound(x.hi);
}

proof fn lemma_low_u128(x: U256)
    ensures
        x.as_nat() % 0x100000000000000000000000000000000nat == (x.w0 as nat) + (x.w1 as nat)
            * 0x10000000000000000,
{
    let low = (x.w0 as int) + (x.w1 as int) * 0x10000000000000000;
    let high = (x.w2 as int) + (x.w3 as int) * 0x10000000000000000;
    assert(x.as_nat() == low + high * 0x100000000000000000000000000000000nat);
    lemma_fundamental_div_mod_converse(
        x.as_nat() as int,
        0x100000000000000000000000000000000nat as int,
        high,
        low,
    );
}

/// Common powers of two, spelled as literals.
pub proof fn lemma_pow2_literals()
    ensures
        pow2(16) == 0x10000,
        pow2(32) == 0x100000000,
        pow2(56) == 0x100000000000000,
        pow2(63) == 0x8000000000000000,
        pow2(64) == 0x10000000000000000,
        pow2(70) == 0x400000000000000000,
        pow2(128) == 0x100000000000000000000000000000000nat,
        pow2(192) == 0x1000000000000000000000000000000000000000000000000nat,
        pow2(256) == 0x10000000000000000000000000000000000000000000000000000000000000000nat,
        pow2(512)
            == 0x100000000000000000000000000000000000000000000000000000000000000000000000000000000000000000000000000000000000000000000000000000000nat,
{
    lemma2_to64();
    lemma2_to64_rest();
    lemma_pow2_adds(64, 6);
    lemma_pow2_adds(64, 64);
    lemma_pow2_adds(128, 64);
    lemma_pow2_adds(128, 128);
    lemma_pow2_adds(256, 256);
    assert(0x100000000000000000000000000000000nat * 0x100000000000000000000000000000000nat
        == 0x10000000000000000000000000000000000000000000000000000000000000000nat) by (nonlinear_arith);
    assert(0x10000000000000000000000000000000000000000000000000000000000000000nat
        * 0x10000000000000000000000000000000000000000000000000000000000000000nat
        == 0x100000000000000000000000000000000000000000000000000000000000000000000000000000000000000000000000000000000000000000000000000000000nat) by (nonlinear_arith);
}

/// Relies on `primitive_types::U256`'s `Add`, which panics on overflow and
/// otherwise returns the exact sum.
#[verifier::external_body]
pub fn u256_add(a: &U256, b: &U256) -> (r: U256)
    requires
        a.as_nat() + b.as_nat()
            < 0x10000000000000000000000000000000000000000000000000000000000000000nat,
    ensures
        r.as_nat() == a.as_nat() + b.as_nat(),
{
    let x = primitive_types::U256([a.w0, a.w1, a.w2, a.w3]);
    let y = primitive_types::U256([b.w0, b.w1, b.w2, b.w3]);
    let z = (x + y).0;
    U256 { w0: z[0], w1: z[1], w2: z[2], w3: z[3] }
}

/// Relies on `primitive_types::U256`'s `Sub`, which panics on underflow and
/// otherwise returns the exact difference.
#[verifier::external_body]
pub fn u256_sub(a: &U256, b: &U256) -> (r: U256)
    requires
        b.as_nat() <= a.as_nat(),
    ensures
        r.as_nat() == a.as_nat() - b.as_nat(),
{
    let x = primitive_types::U256([a.w0, a.w1, a.w2, a.w3]);
    let y = primitive_types::U256([b.w0, b.w1, b.w2, b.w3]);
    let z = (x - y).0;
    U256 { w0: z[0], w1: z[1], w2: z[2], w3: z[3] }
}

/// Relies on `primitive_types::U256`'s `Mul`, which panics on overflow and
/// otherwise returns the exact product.
#[verifier::external_body]
pub fn u256_mul(a: &U256, b: &U256) -> (r: U256)
    requires
        a.as_nat() * b.as_nat()
            < 0x10000000000000000000000000000000000000000000000000000000000000000nat,
    ensures
        r.as_nat() == a.as_nat() * b.as_nat(),
{
    let x = primitive_types::U256([a.w0, a.w1, a.w2, a.w3]);
    let y = primitive_types::U256([b.w0, b.w1, b.w2, b.w3]);
    let z = (x * y).0;
    U256 { w0: z[0], w1: z[1], w2: z[2], w3: z[3] }
}

/// Relies on `primitive_types::U256`'s `Div`, which panics on a zero divisor
/// and otherwise returns the quotient rounded toward zero.
#[verifier::external_body]
pub fn u256_div(a: &U256, b: &U256) -> (r: U256)
    requires
        b.as_nat() > 0,
    ensures
        r.as_nat() == a.as_nat() / b.as_nat(),
{
    let x = primitive_types::U256([a.w0, a.w1, a.w2, a.w3]);
    let y = primitive_types::U256([b.w0, b.w1, b.w2, b.w3]);
    let z = (x / y).0;
    U256 { w0: z[0], w1: z[1], w2: z[2], w3: z[3] }
}

/// Relies on `primitive_types::U256`'s `Shl`, which discards bits shifted
/// beyond position 255, so the result is the product reduced modulo `2^256`.
#[verifier::external_body]
pub fn u256_shl(a: &U256, s: u32) -> (r: U256)
    ensures
        r.as_nat() == (a.as_nat() * pow2(s as nat))
            % 0x10000000000000000000000000000000000000000000000000000000000000000nat,
{
    let x = primitive_types::U256([a.w0, a.w1, a.w2, a.w3]);
    let z = (x << s).0;
    U256 { w0: z[0], w1: z[1], w2: z[2], w3: z[3] }
}

/// Relies on `primitive_types::U256`'s `Shr`, which fills with zeroes, so the
/// result is the quotient by the corresponding power of two.
#[verifier::external_body]
pub fn u256_shr(a: &U256, s: u32) -> (r: U256)
    ensures
        r.as_nat() == a.as_nat() / pow2(s as nat),
{
    let x = primitive_types::U256([a.w0, a.w1, a.w2, a.w3]);
    let z = (x >> s).0;
    U256 { w0: z[0], w1: z[1], w2: z[2], w3: z[3] }
}

/// Relies on `primitive_types::U256::integer_sqrt`: the greatest `n` with
/// `n * n <= self`.
#[verifier::external_body]
pub fn u256_integer_sqrt(a: &U256) -> (r: U256)
    ensures
        r.as_nat() * r.as_nat() <= a.as_nat(),
        a.as_nat() < (r.as_nat() + 1) * (r.as_nat() + 1),
{
    let x = primitive_types::U256([a.w0, a.w1, a.w2, a.w3]);
    let z = x.integer_sqrt().0;
    U256 { w0: z[0], w1: z[1], w2: z[2], w3: z[3] }
}

/// Relies on `primitive_types::U256::full_mul`: the exact double-width
/// product of two 256-bit values.
#[verifier::external_body]
pub fn u256_full_mul(a: &U256, b: &U256) -> (r: U512)
    ensures
        r.as_nat() == a.as_nat() * b.as_nat(),
{
    let x = primitive_types::U256([a.w0, a.w1, a.w2, a.w3]);
    let y = primitive_types::U256([b.w0, b.w1, b.w2, b.w3]);
    let z = x.full_mul(y).0;
    U512 {
        lo: U256 { w0: z[0], w1: z[1], w2: z[2], w3: z[3] },
        hi: U256 { w0: z[4], w1: z[5], w2: z[6], w3: z[7] },
    }
}

/// Relies on `primitive_types::U512`'s `Add`, which panics on overflow and
/// otherwise returns the exact sum.
#[verifier::external_body]
pub fn u512_add(a: &U512, b: &U512) -> (r: U512)
    requires
        a.as_nat() + b.as_nat()
            < 0x100000000000000000000000000000000000000000000000000000000000000000000000000000000000000000000000000000000000000000000000000000000nat,
    ensures
        r.as_nat() == a.as_nat() + b.as_nat(),
{
    let x = primitive_types::U512([a.lo.w0, a.lo.w1, a.lo.w2, a.lo.w3, a.hi.w0, a.hi.w1, a.hi.w2, a.hi.w3]);
    let y = primitive_types::U512([b.lo.w0, b.lo.w1, b.lo.w2, b.lo.w3, b.hi.w0, b.hi.w1, b.hi.w2, b.hi.w3]);
    let z = (x + y).0;
    U512 {
        lo: U256 { w0: z[0], w1: z[1], w2: z[2], w3: z[3] },
        hi: U256 { w0: z[4], w1: z[5], w2: z[6], w3: z[7] },
    }
}

/// Relies on `primitive_types::U512`'s `Div`, which panics on a zero
/// divisor and otherwise returns the quotient rounded toward zero.
#[verifier::external_body]
pub fn u512_div(a: &U512, d: &U512) -> (r: U512)
    requires
        d.as_nat() > 0,
    ensures
        r.as_nat() == a.as_nat() / d.as_nat(),
{
    let x = primitive_types::U512([a.lo.w0, a.lo.w1, a.lo.w2, a.lo.w3, a.hi.w0, a.hi.w1, a.hi.w2, a.hi.w3]);
    let y = primitive_types::U512([d.lo.w0, d.lo.w1, d.lo.w2, d.lo.w3, d.hi.w0, d.hi.w1, d.hi.w2, d.hi.w3]);
    let z = (x / y).0;
    U512 {
        lo: U256 { w0: z[0], w1: z[1], w2: z[2], w3: z[3] },
        hi: U256 { w0: z[4], w1: z[5], w2: z[6], w3: z[7] },
    }
}

/// Relies on `primitive_types::U512`'s `Rem`, which panics on a zero
/// divisor and otherwise returns the division remainder.
#[verifier::external_body]
pub fn u512_rem(a: &U512, d: &U512) -> (r: U512)
    requires
        d.as_nat() > 0,
    ensures
        r.as_nat() == a.as_nat() % d.as_nat(),
{
    let x = primitive_types::U512([a.lo.w0, a.lo.w1, a.lo.w2, a.lo.w3, a.hi.w0, a.hi.w1, a.hi.w2, a.hi.w3]);
    let y = primitive_types::U512([d.lo.w0, d.lo.w1, d.lo.w2, d.lo.w3, d.hi.w0, d.hi.w1, d.hi.w2, d.hi.w3]);
    let z = (x % y).0;
    U512 {
        lo: U256 { w0: z[0], w1: z[1], w2: z[2], w3: z[3] },
        hi: U256 { w0: z[4], w1: z[5], w2: z[6], w3: z[7] },
    }
}

/// The quotient and remainder of a 512-bit division.
pub fn u512_div_mod(a: &U512, d: &U512) -> (r: (U512, U512))
    requires
        d.as_nat() > 0,
    ensures
        r.0.as_nat() == a.as_nat() / d.as_nat(),
        r.1.as_nat() == a.as_nat() % d.as_nat(),
{
    (u512_div(a, d), u512_rem(a, d))
}

} // verus!
