//! Integers as IEEE 754 binary64 bit patterns.
//!
//! The interpreter holds a number as a 32-bit integer where it is one, and
//! as a binary64 float otherwise. This module computes, in integer
//! arithmetic, the bit pattern of the float nearest to an integer (ties to
//! even), and the 32-bit integer that a bit pattern encodes, if it encodes
//! one.

use vstd::prelude::*;
use vstd::arithmetic::div_mod::lemma_fundamental_div_mod_converse;
use vstd::arithmetic::power2::{
    lemma2_to64,
    lemma2_to64_rest,
    lemma_pow2_adds,
    lemma_pow2_pos,
    lemma_pow2_strictly_increases,
    lemma_pow2_unfold,
    pow2,
};

verus! {

/// The position of the highest set bit of a positive number.
pub open spec fn top_bit(m: nat) -> nat
    decreases m,
{
    if m <= 1 {
        0
    } else {
        1 + top_bit(m / 2)
    }
}

/// A positive number scaled to 53 significant bits and rounded to the nearest
/// integer, ties to even: a number from 2^52 to 2^53 inclusive.
pub open spec fn rounded_significand(m: nat) -> nat {
    let e = top_bit(m);
    if e <= 52 {
        m * pow2((52 - e) as nat)
    } else {
        let d = pow2((e - 52) as nat);
        let q = m / d;
        let r = m % d;
        if 2 * r > d || (2 * r == d && q % 2 == 1) {
            q + 1
        } else {
            q
        }
    }
}

/// The binary64 bit pattern of the float nearest to a positive integer: the
/// biased exponent above the 52 fraction bits. A significand that rounds up
/// to 2^53 carries into the exponent.
pub open spec fn magnitude_bits(m: nat) -> nat {
    ((1023 + top_bit(m)) * pow2(52) + (rounded_significand(m) - pow2(52))) as nat
}

/// The binary64 bit pattern of the float nearest to an integer; a negative
/// integer sets the sign bit.
pub open spec fn int_float_bits(x: int) -> nat {
    if x == 0 {
        0
    } else if x > 0 {
        magnitude_bits(x as nat)
    } else {
        pow2(63) + magnitude_bits((-x) as nat)
    }
}

/// A positive number lies between the power of two at its highest set bit
/// and the next one.
pub proof fn lemma_top_bit_bounds(m: nat)
    requires
        m > 0,
    ensures
        pow2(top_bit(m)) <= m < pow2(top_bit(m) + 1),
    decreases m,
{
    lemma2_to64();
    if m > 1 {
        lemma_top_bit_bounds(m / 2);
        lemma_pow2_unfold(top_bit(m));
        lemma_pow2_unfold(top_bit(m) + 1);
    }
}

/// A number below 2^(k+1) has its highest set bit at `k` or lower.
pub proof fn lemma_top_bit_below(m: nat, k: nat)
    requires
        0 < m < pow2(k + 1),
    ensures
        top_bit(m) <= k,
{
    lemma_top_bit_bounds(m);
    if top_bit(m) > k {
        if top_bit(m) > k + 1 {
            lemma_pow2_strictly_increases(k + 1, top_bit(m));
        }
    }
}

/// The rounded significand of a positive number lies from 2^52 to 2^53.
pub proof fn lemma_significand_range(m: nat)
    requires
        m > 0,
    ensures
        pow2(52) <= rounded_significand(m) <= pow2(53),
{
    let e = top_bit(m);
    lemma_top_bit_bounds(m);
    lemma_pow2_unfold(53);
    lemma_pow2_unfold(e + 1);
    if e <= 52 {
        let s = pow2((52 - e) as nat);
        lemma_pow2_pos((52 - e) as nat);
        lemma_pow2_adds(e, (52 - e) as nat);
        assert(pow2(e) * s == pow2(52));
        assert(pow2(e) * s <= m * s) by (nonlinear_arith)
            requires
                pow2(e) <= m,
                s > 0,
        ;
        assert(m * s < 2 * pow2(e) * s) by (nonlinear_arith)
            requires
                m < 2 * pow2(e),
                s > 0,
        ;
        assert(2 * pow2(e) * s == 2 * (pow2(e) * s)) by (nonlinear_arith);
    } else {
        let d = pow2((e - 52) as nat);
        lemma_pow2_pos((e - 52) as nat);
        lemma_pow2_adds(52, (e - 52) as nat);
        assert(pow2(52) * d == pow2(e));
        let q = m / d;
        assert(q >= pow2(52)) by (nonlinear_arith)
            requires
                m >= pow2(52) * d,
                d > 0,
                q == m / d,
        ;
        assert(q < 2 * pow2(52)) by (nonlinear_arith)
            requires
                m < 2 * (pow2(52) * d),
                d > 0,
                q == m / d,
        ;
    }
}

/// Computes a power of two.
fn pow2_u64(k: u32) -> (p: u64)
    requires
        k <= 63,
    ensures
        p == pow2(k as nat),
{
    let mut p: u64 = 1;
    let mut i: u32 = 0;
    proof {
        lemma2_to64();
    }
    while i < k
        invariant
            i <= k <= 63,
            p == pow2(i as nat),
        decreases k - i,
    {
        proof {
            lemma_pow2_unfold((i + 1) as nat);
            lemma2_to64_rest();
            if i + 1 < 63 {
                lemma_pow2_strictly_increases((i + 1) as nat, 63);
            }
        }
        p = p * 2;
        i = i + 1;
    }
    p
}

/// Finds the position of the highest set bit.
fn top_bit_of(m: u64) -> (e: u32)
    requires
        m > 0,
    ensures
        e == top_bit(m as nat),
        e <= 63,
{
    proof {
        lemma2_to64_rest();
        lemma_top_bit_below(m as nat, 63);
    }
    let mut e: u32 = 0;
    let mut rest: u64 = m;
    while rest > 1
        invariant
            rest >= 1,
            top_bit(m as nat) == e + top_bit(rest as nat),
            top_bit(m as nat) <= 63,
        decreases rest,
    {
        rest = rest / 2;
        e = e + 1;
    }
    e
}

/// The bit pattern of the float nearest to an unsigned integer.
pub fn float_bits_of_u64(m: u64) -> (bits: u64)
    ensures
        bits == int_float_bits(m as int),
        bits < 0x8000_0000_0000_0000,
{
    if m == 0 {
        return 0;
    }
    let e = top_bit_of(m);
    proof {
        lemma2_to64();
        lemma2_to64_rest();
        lemma_top_bit_bounds(m as nat);
        lemma_significand_range(m as nat);
    }
    let sig: u64 = if e <= 52 {
        let scale = pow2_u64(52 - e);
        m * scale
    } else {
        let d = pow2_u64(e - 52);
        proof {
            if e - 52 < 11 {
                lemma_pow2_strictly_increases((e - 52) as nat, 11);
            }
            lemma_pow2_pos((e - 52) as nat);
        }
        let q = m / d;
        let r = m % d;
        if 2 * r > d || (2 * r == d && q % 2 == 1) {
            q + 1
        } else {
            q
        }
    };
    assert(sig == rounded_significand(m as nat));
    assert((1023 + e) * 0x10000000000000 <= 1086 * 0x10000000000000) by (nonlinear_arith)
        requires
            e <= 63,
    ;
    (1023 + e as u64) * 0x10000000000000 + (sig - 0x10000000000000)
}

/// The bit pattern of the float nearest to a signed integer.
pub fn float_bits_of_i64(x: i64) -> (bits: u64)
    ensures
        bits == int_float_bits(x as int),
{
    if x >= 0 {
        float_bits_of_u64(x as u64)
    } else {
        let m: u64 = if x == i64::MIN {
            0x8000_0000_0000_0000
        } else {
            (-x) as u64
        };
        proof {
            lemma2_to64_rest();
        }
        0x8000_0000_0000_0000 + float_bits_of_u64(m)
    }
}

/// The whole number of magnitude below 2^32 that a bit pattern encodes, if
/// it encodes one.
///
/// The pattern is a sign bit, an exponent field of 11 bits and a fraction
/// of 52 bits. All zeros is zero; negative zero counts as no whole number.
/// Otherwise the pattern encodes a whole number when the exponent `e`,
/// which is the field less 1023, is from 0 to 31 and the significand, which
/// is 2^52 plus the fraction, is a multiple of 2^(52 - e): the number is
/// then the quotient, with the sign.
pub open spec fn small_whole_value(bits: u64) -> Option<int> {
    let negative = bits >= pow2(63);
    let rest: int = if negative {
        bits - pow2(63)
    } else {
        bits as int
    };
    let field = rest / (pow2(52) as int);
    let fraction = rest % (pow2(52) as int);
    if rest == 0 {
        if negative {
            None
        } else {
            Some(0)
        }
    } else if field < 1023 || field > 1023 + 31 {
        None
    } else {
        let d = pow2((52 - (field - 1023)) as nat) as int;
        let significand = pow2(52) + fraction;
        if significand % d == 0 {
            if negative {
                Some(-(significand / d))
            } else {
                Some(significand / d)
            }
        } else {
            None
        }
    }
}

/// The 32-bit integer that a bit pattern encodes, if it encodes one.
pub open spec fn i32_of_bits(bits: u64) -> Option<i32> {
    match small_whole_value(bits) {
        Some(v) => if i32::MIN <= v <= i32::MAX {
            Some(v as i32)
        } else {
            None
        },
        None => None,
    }
}

/// Finds the 32-bit integer that a bit pattern encodes, if it encodes one.
pub fn whole_i32_of_bits(bits: u64) -> (r: Option<i32>)
    ensures
        r == i32_of_bits(bits),
{
    proof {
        lemma2_to64();
        lemma2_to64_rest();
    }
    let negative = bits >= 0x8000_0000_0000_0000;
    let rest: u64 = if negative {
        bits - 0x8000_0000_0000_0000
    } else {
        bits
    };
    let field = rest / 0x10000000000000;
    let fraction = rest % 0x10000000000000;
    if rest == 0 {
        return if negative {
            None
        } else {
            Some(0)
        };
    }
    if field < 1023 || field > 1023 + 31 {
        return None;
    }
    let shift: u32 = (52 - (field - 1023)) as u32;
    let d = pow2_u64(shift);
    proof {
        lemma_pow2_pos(shift as nat);
        if shift > 21 {
            lemma_pow2_strictly_increases(21, shift as nat);
        }
    }
    let significand = 0x10000000000000 + fraction;
    if significand % d != 0 {
        return None;
    }
    let magnitude = significand / d;
    assert(magnitude <= significand / 0x200000) by (nonlinear_arith)
        requires
            magnitude == significand / d,
            d >= 0x200000,
            significand >= 0,
    ;
    if negative {
        if magnitude <= 0x8000_0000 {
            Some((0 - magnitude as i64) as i32)
        } else {
            None
        }
    } else {
        if magnitude <= 0x7fff_ffff {
            Some(magnitude as i32)
        } else {
            None
        }
    }
}

/// The bit pattern of the float nearest to a positive number of magnitude
/// up to 2^31 encodes that number.
proof fn lemma_magnitude_is_read_back(m: nat)
    requires
        0 < m <= pow2(31),
    ensures
        0 < magnitude_bits(m) < pow2(63),
        small_whole_value(magnitude_bits(m) as u64) == Some(m as int),
        small_whole_value((pow2(63) + magnitude_bits(m)) as u64) == Some(-(m as int)),
{
    lemma2_to64();
    lemma2_to64_rest();
    lemma_top_bit_below(m, 31);
    lemma_top_bit_bounds(m);
    lemma_significand_range(m);
    let e = top_bit(m);
    let p = pow2(52) as int;
    let s = pow2((52 - e) as nat) as int;
    lemma_pow2_pos((52 - e) as nat);
    lemma_pow2_adds(e + 1, (52 - e) as nat);
    lemma_pow2_unfold(53);
    assert(m * s < pow2(e + 1) * s) by (nonlinear_arith)
        requires
            m < pow2(e + 1),
            s > 0,
    ;
    let f = m * s - p;
    let bits = magnitude_bits(m) as int;
    assert(bits == (1023 + e) * p + f);
    assert((1023 + e) * p <= 1054 * p) by (nonlinear_arith)
        requires
            e <= 31,
            p > 0,
    ;
    lemma_fundamental_div_mod_converse(bits, p, (1023 + e) as int, f);
    lemma_fundamental_div_mod_converse(m * s, s, m as int, 0);
    assert(p + f == m * s);
    assert(pow2((52 - ((1023 + e) - 1023)) as nat) == s);
}

/// Reading undoes writing: the bit pattern of the float nearest to a
/// 32-bit integer encodes that integer.
pub proof fn lemma_i32_is_read_back(v: int)
    requires
        i32::MIN <= v <= i32::MAX,
    ensures
        int_float_bits(v) < pow2(64),
        i32_of_bits(int_float_bits(v) as u64) == Some(v as i32),
{
    lemma2_to64();
    lemma2_to64_rest();
    if v > 0 {
        lemma_magnitude_is_read_back(v as nat);
    } else if v < 0 {
        lemma_magnitude_is_read_back((-v) as nat);
    }
}

} // verus!
