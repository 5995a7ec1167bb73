//! Typed time units and the checked conversions between them.

use vstd::arithmetic::div_mod::{lemma_div_is_ordered, lemma_div_multiples_vanish};
use vstd::arithmetic::power2::{
    lemma2_to64, lemma_pow2_adds, lemma_pow2_strictly_increases, lemma_pow2_unfold, pow2,
};
use vstd::prelude::*;

use crate::narrow::narrow_to_u32;

verus! {

/// The base frequency of a TIMER, in megahertz.
pub const HFCLK_MHZ: u32 = 16;

/// The base frequency of a TIMER, in hertz.
pub const HFCLK_HZ: u32 = 16_000_000;

/// The base frequency of an RTC, in hertz.
pub const LFCLK_HZ: u32 = 32_768;

/// A number of ticks of the high-frequency clock (16 MHz, 62.5 ns a tick).
#[derive(Debug, Clone, Copy, PartialEq, Eq, Structural)]
pub struct Hfticks(pub u64);

/// A number of ticks of the low-frequency clock (32.768 kHz, about 30.5 µs a tick).
#[derive(Debug, Clone, Copy, PartialEq, Eq, Structural)]
pub struct Lfticks(pub u64);

/// A duration in microseconds.
#[derive(Debug, Clone, Copy, PartialEq, Eq, Structural)]
pub struct Micros(pub u32);

/// A duration in milliseconds.
#[derive(Debug, Clone, Copy, PartialEq, Eq, Structural)]
pub struct Millis(pub u32);

/// A frequency in hertz.
#[derive(Debug, Clone, Copy, PartialEq, Eq, Structural)]
pub struct Hertz(pub u32);

/// A duration that cannot be represented as a 32-bit tick count.
#[derive(Debug, Clone, Copy, PartialEq, Eq, Structural)]
pub struct Overflow;

/// Ticks of a `hz` clock in `count` units of `1 / per_second` seconds, rounded down.
pub open spec fn ticks_for(count: nat, hz: nat, per_second: nat) -> nat {
    (count * hz / per_second) as nat
}

/// The number of significant bits of `x`: 0 for 0, otherwise one more than
/// the position of its highest set bit.
pub open spec fn bit_length(x: nat) -> nat
    decreases x,
{
    if x == 0 {
        0
    } else {
        1 + bit_length(x / 2)
    }
}

/// A positive `x` lies in [2^(n-1), 2^n) for `n` its bit length; and a value
/// below 2^k has at most `k` significant bits.
pub proof fn lemma_bit_length_bounds(x: nat, k: nat)
    ensures
        x > 0 ==> pow2((bit_length(x) - 1) as nat) <= x,
        x < pow2(bit_length(x)),
        x < pow2(k) ==> bit_length(x) <= k,
    decreases x,
{
    if x > 0 {
        let h = x / 2;
        if k > 0 {
            lemma_pow2_unfold(k);
            lemma_bit_length_bounds(h, (k - 1) as nat);
        } else {
            lemma_bit_length_bounds(h, 0);
            assert(pow2(0) == 1) by {
                lemma2_to64();
            }
        }
        lemma_pow2_unfold(bit_length(x));
        if h > 0 {
            lemma_pow2_unfold((bit_length(x) - 1) as nat);
        } else {
            assert(pow2(0) == 1) by {
                lemma2_to64();
            }
        }
    } else {
        assert(pow2(0) == 1) by {
            lemma2_to64();
        }
        if k > 0 {
            lemma_pow2_strictly_increases(0, k);
        }
    }
}

/// The number of significant bits of `x`.
pub fn significant_bits(x: u32) -> (r: u32)
    ensures
        r == bit_length(x as nat),
        r <= 32,
{
    proof {
        lemma_bit_length_bounds(x as nat, 32);
        lemma2_to64();
    }
    let mut v: u32 = x;
    let mut n: u32 = 0;
    while v > 0
        invariant
            bit_length(x as nat) == n + bit_length(v as nat),
            bit_length(x as nat) <= 32,
        decreases v,
    {
        v = v / 2;
        n = n + 1;
    }
    n
}

/// When `a` and `b` together have at least 34 more significant bits than
/// `d`, the quotient `a * b / d` is at least 2^32.
pub proof fn lemma_too_many_bits(a: nat, b: nat, d: nat)
    requires
        d > 0,
        bit_length(a) + bit_length(b) >= bit_length(d) + 34,
        bit_length(a) <= 32,
        bit_length(b) <= 32,
    ensures
        a * b / d > u32::MAX,
{
    let ba = bit_length(a);
    let bb = bit_length(b);
    let bd = bit_length(d);
    lemma_bit_length_bounds(a, 0);
    lemma_bit_length_bounds(b, 0);
    lemma_bit_length_bounds(d, 0);
    let pa = pow2((ba - 1) as nat);
    let pb = pow2((bb - 1) as nat);
    let e = (ba - 1 + bb - 1) as nat;
    lemma_pow2_adds((ba - 1) as nat, (bb - 1) as nat);
    assert(pa * pb <= a * b) by (nonlinear_arith)
        requires
            pa <= a,
            pb <= b,
    ;
    lemma_pow2_adds(bd, 32);
    if bd + 32 < e {
        lemma_pow2_strictly_increases(bd + 32, e);
    }
    lemma2_to64();
    let q = pow2(bd);
    let t = pow2(32);
    assert(d * t <= q * t) by (nonlinear_arith)
        requires
            d < q,
            t > 0,
    ;
    assert(d * t <= a * b);
    lemma_div_is_ordered((d * t) as int, (a * b) as int, d as int);
    lemma_div_multiples_vanish(t as int, d as int);
}

/// Converts `count` units of `1 / per_second` seconds into ticks of a clock
/// running at `frequency`, rounding down.
///
/// A result that would need more than 32 bits is rejected up front when the
/// operands' significant bits, less those of the divisor, already exceed 33;
/// otherwise the product is formed in 64 bits, where two 32-bit operands
/// cannot overflow, and the quotient is narrowed to 32 bits only if it fits.
pub fn checked_multiply(count: u32, frequency: Hertz, per_second: u32) -> (r: Result<u32, Overflow>)
    requires
        per_second > 0,
    ensures
        r is Ok <==> ticks_for(count as nat, frequency.0 as nat, per_second as nat) <= u32::MAX,
        r matches Ok(t) ==> t == ticks_for(count as nat, frequency.0 as nat, per_second as nat),
{
    let bits = significant_bits(count) + significant_bits(frequency.0);
    if bits >= significant_bits(per_second) + 34 {
        proof {
            lemma_too_many_bits(count as nat, frequency.0 as nat, per_second as nat);
        }
        return Err(Overflow);
    }
    let a = count as u64;
    let b = frequency.0 as u64;
    assert(a * b <= u32::MAX as int * u32::MAX as int) by (nonlinear_arith)
        requires
            a <= u32::MAX,
            b <= u32::MAX,
    ;
    let product = a * b;
    let quotient = product / (per_second as u64);
    match narrow_to_u32(quotient) {
        Some(t) => Ok(t),
        None => Err(Overflow),
    }
}

impl Micros {
    /// Ticks of a clock at `frequency` in this many microseconds, rounded down.
    pub fn to_ticks(self, frequency: Hertz) -> (r: Result<u32, Overflow>)
        ensures
            r is Ok <==> ticks_for(self.0 as nat, frequency.0 as nat, 1_000_000) <= u32::MAX,
            r matches Ok(t) ==> t == ticks_for(self.0 as nat, frequency.0 as nat, 1_000_000),
    {
        checked_multiply(self.0, frequency, 1_000_000)
    }
}

impl Millis {
    /// Ticks of a clock at `frequency` in this many milliseconds, rounded down.
    pub fn to_ticks(self, frequency: Hertz) -> (r: Result<u32, Overflow>)
        ensures
            r is Ok <==> ticks_for(self.0 as nat, frequency.0 as nat, 1_000) <= u32::MAX,
            r matches Ok(t) ==> t == ticks_for(self.0 as nat, frequency.0 as nat, 1_000),
    {
        checked_multiply(self.0, frequency, 1_000)
    }
}

impl Hfticks {
    /// The exact number of high-frequency ticks in `ms` milliseconds.
    pub fn from_ms(ms: u32) -> (r: Hfticks)
        ensures
            r.0 == ms * 16 * 1000,
    {
        Hfticks(ms as u64 * 16 * 1000)
    }

    /// The exact number of high-frequency ticks in `us` microseconds.
    pub fn from_us(us: u32) -> (r: Hfticks)
        ensures
            r.0 == us * 16,
    {
        Hfticks(us as u64 * 16)
    }

    /// High-frequency ticks in a duration of `secs` seconds and `subsec_nanos`
    /// nanoseconds, rounded down; `None` when `secs` does not fit in 32 bits.
    pub fn from_duration(secs: u64, subsec_nanos: u32) -> (r: Option<Hfticks>)
        requires
            subsec_nanos < 1_000_000_000,
        ensures
            r is Some <==> secs <= u32::MAX,
            r matches Some(t) ==> t.0 == subsec_nanos * 16 / 1000
                + secs * 16 * 1_000_000,
    {
        match narrow_to_u32(secs) {
            Some(s) => Some(
                Hfticks(
                    subsec_nanos as u64 * 16 / 1000 + s as u64 * 16_000_000,
                ),
            ),
            None => None,
        }
    }
}

impl Lfticks {
    /// Low-frequency ticks in `ms` milliseconds, rounded down.
    pub fn from_ms(ms: u32) -> (r: Lfticks)
        ensures
            r.0 == ms * 32_768 / 1000,
    {
        Lfticks((ms as u64 * 32_768) / 1_000)
    }

    /// Low-frequency ticks in `us` microseconds, rounded down.
    pub fn from_us(us: u32) -> (r: Lfticks)
        ensures
            r.0 == us * 32_768 / 1_000_000,
    {
        Lfticks((us as u64 * 32_768) / 1_000_000)
    }
}

} // verus!
