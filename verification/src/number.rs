//! Single-precision numbers as bit patterns.
//!
//! Every numeric operand of a content stream ends up as a 32-bit IEEE 754
//! number. This module carries such a number as the 32 bits of its binary32
//! encoding and does the one conversion the classifier needs, from a signed
//! 32-bit integer, in integer arithmetic alone.

use vstd::arithmetic::div_mod::lemma_fundamental_div_mod;
use vstd::arithmetic::div_mod::lemma_div_multiples_vanish;
use vstd::arithmetic::power2::lemma2_to64;
use vstd::arithmetic::power2::lemma_pow2_adds;
use vstd::arithmetic::power2::lemma_pow2_pos;
use vstd::arithmetic::power2::lemma_pow2_unfold;
use vstd::arithmetic::power2::pow2;
use vstd::prelude::*;

verus! {

/// A single-precision number: the bit pattern of its binary32 encoding
/// (sign in bit 31, biased exponent in bits 30 to 23, fraction below).
#[derive(Clone, Copy, Debug, PartialEq, Eq, Hash, Structural)]
pub struct Real {
    pub bits: u32,
}

/// Bit pattern of `1.0`.
pub const ONE_BITS: u32 = 0x3f80_0000;

/// Bit pattern of `-0.0`; `+0.0` is all zeros.
pub const NEGATIVE_ZERO_BITS: u32 = 0x8000_0000;

/// Exponent of the highest power of two that is at most `m` (zero for `m < 2`).
pub open spec fn floor_log2(m: nat) -> nat
    decreases m,
{
    if m <= 1 {
        0
    } else {
        1 + floor_log2(m / 2)
    }
}

/// `m / d` rounded to the nearest integer, a tie going to the even neighbour.
pub open spec fn round_half_even(m: nat, d: nat) -> nat {
    let q = m / d;
    let r = m % d;
    if 2 * r > d || (2 * r == d && q % 2 == 1) {
        q + 1
    } else {
        q
    }
}

/// The 24-bit significand of the binary32 number nearest to `m > 0`, as an
/// integer in `2^23 ..= 2^24`: `m` scaled so that its leading bit lands on bit
/// 23, rounded half to even where bits fall off.
pub open spec fn significand_of(m: nat) -> nat {
    let e = floor_log2(m);
    if e <= 23 {
        m * pow2((23 - e) as nat)
    } else {
        round_half_even(m, pow2((e - 23) as nat))
    }
}

/// Bit pattern of the binary32 number nearest to the integer `i`, ties to
/// even. A significand that rounds up to `2^24` carries into the exponent
/// field, which is what the sum below does.
pub open spec fn binary32_of_int(i: int) -> int {
    if i == 0 {
        0
    } else {
        let m = (if i < 0 { -i } else { i }) as nat;
        let sign: int = if i < 0 { 0x8000_0000 } else { 0 };
        sign + (floor_log2(m) + 127) * 0x80_0000 + (significand_of(m) - 0x80_0000)
    }
}

/// The integer that a bit pattern stands for, where the pattern is that of
/// a number of magnitude one or more that has no fractional part, or a
/// zero: the significand, with its hidden leading bit, scaled by the power
/// of two that the exponent field names.
pub open spec fn integer_of_binary32(bits: int) -> int {
    let magnitude = bits % 0x8000_0000;
    let value = if magnitude == 0 {
        0
    } else {
        let e = magnitude / 0x80_0000 - 127;
        let significand = 0x80_0000 + magnitude % 0x80_0000;
        if e <= 23 {
            significand / (pow2((23 - e) as nat) as int)
        } else {
            significand * pow2((e - 23) as nat)
        }
    };
    if bits >= 0x8000_0000 {
        -value
    } else {
        value
    }
}

/// A number between two consecutive powers of two has the lower one's exponent.
pub proof fn lemma_floor_log2_between(m: nat, e: nat)
    requires
        pow2(e) <= m < 2 * pow2(e),
    ensures
        floor_log2(m) == e,
    decreases e,
{
    lemma2_to64();
    if e == 0 {
        assert(m == 1);
    } else {
        lemma_pow2_unfold(e);
        lemma_floor_log2_between(m / 2, (e - 1) as nat);
    }
}

/// A positive number lies between the power of two of its exponent and the
/// next one.
pub proof fn lemma_floor_log2_bounds(m: nat)
    requires
        m > 0,
    ensures
        pow2(floor_log2(m)) <= m < 2 * pow2(floor_log2(m)),
    decreases m,
{
    lemma2_to64();
    if m > 1 {
        lemma_floor_log2_bounds(m / 2);
        lemma_pow2_unfold(floor_log2(m));
    }
}

/// The exponent does not fall when the number grows.
pub proof fn lemma_floor_log2_is_monotonic(a: nat, b: nat)
    requires
        a <= b,
    ensures
        floor_log2(a) <= floor_log2(b),
    decreases b,
{
    if a > 1 {
        lemma_floor_log2_is_monotonic(a / 2, b / 2);
    }
}

/// The significand of a positive number has its leading bit on bit 23, or
/// has just rounded up to `2^24`.
pub proof fn lemma_significand_bounds(m: nat)
    requires
        m > 0,
    ensures
        0x80_0000 <= significand_of(m) <= 0x100_0000,
{
    lemma2_to64();
    lemma_floor_log2_bounds(m);
    let e = floor_log2(m);
    let unit = pow2(e);
    if e <= 23 {
        let scale = pow2((23 - e) as nat);
        lemma_pow2_adds(e, (23 - e) as nat);
        assert(0x80_0000 <= m * scale < 0x100_0000) by (nonlinear_arith)
            requires
                unit <= m < 2 * unit,
                unit * scale == 0x80_0000,
        ;
    } else {
        let d = pow2((e - 23) as nat);
        lemma_pow2_adds(23, (e - 23) as nat);
        lemma_fundamental_div_mod(m as int, d as int);
        assert(0x80_0000 <= m / d < 0x100_0000) by (nonlinear_arith)
            requires
                d > 0,
                d * 0x80_0000 <= m < 2 * (d * 0x80_0000),
                m == d * (m / d) + m % d,
                0 <= m % d < d,
        ;
    }
}

/// Rounding goes to the nearest significand. Where bits fall off, the
/// significand scaled back by the weight `u` of its last bit differs from
/// `m` by at most half of `u`, and if by exactly half, it is even. Where no
/// bit falls off, the significand is `m` scaled up, and exact.
pub proof fn lemma_significand_is_nearest(m: nat)
    requires
        m > 0,
    ensures
        floor_log2(m) <= 23 ==> significand_of(m) == m * pow2((23 - floor_log2(m)) as nat),
        floor_log2(m) > 23 ==> ({
            let u = pow2((floor_log2(m) - 23) as nat) as int;
            let back = significand_of(m) * u;
            &&& -u <= 2 * (back - m) <= u
            &&& (2 * (back - m) == u || 2 * (back - m) == -u) ==> significand_of(m) % 2 == 0
        }),
{
    let e = floor_log2(m);
    if e > 23 {
        let d = pow2((e - 23) as nat);
        lemma_pow2_pos((e - 23) as nat);
        lemma_fundamental_div_mod(m as int, d as int);
        let q = m / d;
        let r = m % d;
        assert(d * (q + 1) == d * q + d) by (nonlinear_arith);
        assert(q * d == d * q && (q + 1) * d == d * (q + 1)) by (nonlinear_arith);
    }
}

/// The bit pattern of a 32-bit integer fits in 32 bits, and its top bit is
/// the sign.
pub proof fn lemma_binary32_of_int_fits(i: int)
    requires
        i32::MIN <= i <= i32::MAX,
    ensures
        0 <= binary32_of_int(i) <= u32::MAX,
        i < 0 <==> binary32_of_int(i) >= 0x8000_0000,
        i != 0 ==> (0x3f80_0000 <= binary32_of_int(i) % 0x8000_0000 <= 0x4f00_0000),
{
    if i != 0 {
        let m = (if i < 0 { -i } else { i }) as nat;
        lemma2_to64();
        lemma_significand_bounds(m);
        lemma_floor_log2_bounds(m);
        lemma_floor_log2_is_monotonic(m, 0x8000_0000);
        lemma_floor_log2_between(0x8000_0000, 31);
        if floor_log2(m) == 31 {
            assert(m == 0x8000_0000);
            assert(pow2(8) == 0x100);
            assert(0x8000_0000nat / 0x100 == 0x80_0000 && 0x8000_0000nat % 0x100 == 0);
            assert(round_half_even(m, 0x100) == 0x80_0000);
        }
    }
}

/// Widening an integer gives the single-precision number nearest to it.
/// Up to `2^24` in magnitude that number is the integer itself, so nothing
/// is lost. Beyond, it differs from the integer by at most half the weight
/// of the last bit that fits.
pub proof fn lemma_widening_is_nearest(i: int)
    requires
        i32::MIN <= i <= i32::MAX,
    ensures
        (-0x100_0000 <= i <= 0x100_0000) ==> integer_of_binary32(binary32_of_int(i)) == i,
        ({
            let m = (if i < 0 { -i } else { i }) as nat;
            let off = integer_of_binary32(binary32_of_int(i)) - i;
            floor_log2(m) > 23 ==> -pow2((floor_log2(m) - 23) as nat) <= 2 * off <= pow2(
                (floor_log2(m) - 23) as nat,
            )
        }),
{
    if i != 0 {
        let m = (if i < 0 { -i } else { i }) as nat;
        let e = floor_log2(m);
        let s = significand_of(m);
        let bits = binary32_of_int(i);
        let magnitude = (e + 127) * 0x80_0000 + (s - 0x80_0000);
        lemma2_to64();
        lemma_binary32_of_int_fits(i);
        lemma_significand_bounds(m);
        lemma_significand_is_nearest(m);
        lemma_floor_log2_bounds(m);
        lemma_floor_log2_is_monotonic(m, 0x8000_0000);
        lemma_floor_log2_between(0x8000_0000, 31);
        assert(bits % 0x8000_0000 == magnitude);
        if e <= 23 {
            let scale = pow2((23 - e) as nat);
            lemma_pow2_pos((23 - e) as nat);
            lemma_pow2_adds(e, (23 - e) as nat);
            assert(s < 0x100_0000) by (nonlinear_arith)
                requires
                    s == m * scale,
                    m < 2 * pow2(e),
                    pow2(e) * scale == 0x80_0000,
                    scale > 0,
            ;
            assert(magnitude / 0x80_0000 == e + 127);
            assert(magnitude % 0x80_0000 == s - 0x80_0000);
            lemma_div_multiples_vanish(m as int, scale as int);
            assert(scale * m == m * scale) by (nonlinear_arith);
        } else {
            let u = pow2((e - 23) as nat);
            if s == 0x100_0000 {
                assert(magnitude == (e + 128) * 0x80_0000);
                assert(magnitude / 0x80_0000 == e + 128);
                assert(magnitude % 0x80_0000 == 0);
                lemma_pow2_unfold((e + 1 - 23) as nat);
                assert(0x80_0000 * (2 * u) == 0x100_0000 * u) by (nonlinear_arith);
            } else {
                assert(magnitude / 0x80_0000 == e + 127);
                assert(magnitude % 0x80_0000 == s - 0x80_0000);
            }
            let back: int = (s * u) as int;
            assert(integer_of_binary32(bits) == if i < 0 { -back } else { back });
            if m <= 0x100_0000 {
                assert(e == 24) by {
                    lemma_floor_log2_is_monotonic(m, 0x100_0000);
                    lemma_floor_log2_between(0x100_0000, 24);
                }
                assert(m == 0x100_0000);
                assert(pow2(1) == 2);
                assert(s == 0x80_0000);
                assert(s * u == m) by (nonlinear_arith)
                    requires
                        s == 0x80_0000,
                        u == 2,
                        m == 0x100_0000,
                ;
            }
        }
    }
}

/// Only the integer one widens to `1.0`, and only zero to a zero.
pub proof fn lemma_one_and_zero(i: int)
    requires
        i32::MIN <= i <= i32::MAX,
    ensures
        binary32_of_int(i) == ONE_BITS <==> i == 1,
        binary32_of_int(i) == 0 <==> i == 0,
        binary32_of_int(i) != NEGATIVE_ZERO_BITS,
{
    lemma2_to64();
    lemma_binary32_of_int_fits(i);
    if i == 1 {
        assert(floor_log2(1) == 0);
        assert(significand_of(1) == 0x80_0000);
    } else if i > 1 {
        let m = i as nat;
        lemma_significand_bounds(m);
        lemma_floor_log2_bounds(m);
        if floor_log2(m) == 0 {
            assert(m == 1);
        }
    }
}

impl Real {
    /// Whether the number compares equal to `1.0`.
    pub open spec fn is_one_spec(self) -> bool {
        self.bits == ONE_BITS
    }

    /// Whether the number compares equal to `0.0`; both zeros do.
    pub open spec fn is_zero_spec(self) -> bool {
        self.bits == 0 || self.bits == NEGATIVE_ZERO_BITS
    }

    /// The number with the given binary32 bit pattern.
    pub fn from_bits(bits: u32) -> (r: Real)
        ensures
            r.bits == bits,
    {
        Real { bits }
    }

    /// The binary32 bit pattern of the number.
    pub fn to_bits(self) -> (bits: u32)
        ensures
            bits == self.bits,
    {
        self.bits
    }

    /// Whether the number compares equal to `1.0`.
    #[verifier::when_used_as_spec(is_one_spec)]
    pub fn is_one(self) -> (b: bool)
        ensures
            b == self.is_one_spec(),
    {
        self.bits == ONE_BITS
    }

    /// Whether the number compares equal to `0.0`, of either sign.
    #[verifier::when_used_as_spec(is_zero_spec)]
    pub fn is_zero(self) -> (b: bool)
        ensures
            b == self.is_zero_spec(),
    {
        self.bits == 0 || self.bits == NEGATIVE_ZERO_BITS
    }

    /// The binary32 number nearest to `i`, ties to even: what a numeric
    /// operand written as an integer is widened to.
    pub fn from_i32(i: i32) -> (r: Real)
        ensures
            r.bits == binary32_of_int(i as int),
    {
        if i == 0 {
            return Real { bits: 0 };
        }
        let negative: bool = i < 0;
        let wide: i64 = i as i64;
        let m: u64 = if negative { (0 - wide) as u64 } else { wide as u64 };
        let mut e: u64 = 0;
        let mut unit: u64 = 1;
        proof {
            lemma2_to64();
        }
        while unit * 2 <= m
            invariant
                unit == pow2(e as nat),
                0 < unit <= m <= 0x8000_0000,
                e <= 31,
            decreases m - unit,
        {
            proof {
                lemma2_to64();
                lemma_pow2_unfold((e + 1) as nat);
            }
            unit = unit * 2;
            e = e + 1;
        }
        proof {
            lemma_floor_log2_between(m as nat, e as nat);
        }
        let significand: u64 = if e <= 23 {
            let scale: u64 = 0x80_0000 / unit;
            proof {
                lemma_pow2_adds(e as nat, (23 - e) as nat);
                lemma_div_multiples_vanish(pow2((23 - e) as nat) as int, unit as int);
                assert(scale == pow2((23 - e) as nat));
                assert(0x80_0000 <= m * scale < 0x100_0000) by (nonlinear_arith)
                    requires
                        unit <= m < 2 * unit,
                        unit * scale == 0x80_0000,
                ;
            }
            m * scale
        } else {
            let d: u64 = unit / 0x80_0000;
            proof {
                lemma_pow2_adds(23, (e - 23) as nat);
                lemma_div_multiples_vanish(pow2((e - 23) as nat) as int, 0x80_0000);
                assert(d == pow2((e - 23) as nat));
                lemma_fundamental_div_mod(m as int, d as int);
                assert(0x80_0000 <= m / d < 0x100_0000) by (nonlinear_arith)
                    requires
                        d > 0,
                        d * 0x80_0000 <= m < 2 * (d * 0x80_0000),
                        m == d * (m / d) + m % d,
                        0 <= m % d < d,
                ;
            }
            let q: u64 = m / d;
            let rest: u64 = m % d;
            if 2 * rest > d || (2 * rest == d && q % 2 == 1) {
                q + 1
            } else {
                q
            }
        };
        assert(significand == significand_of(m as nat));
        assert(0x80_0000 <= significand <= 0x100_0000);
        let magnitude: u64 = (e + 127) * 0x80_0000 + (significand - 0x80_0000);
        let bits: u64 = if negative { magnitude + 0x8000_0000 } else { magnitude };
        Real { bits: bits as u32 }
    }
}

} // verus!
