//! IEEE-754 binary32 values, held and computed on as bit patterns.
//!
//! A finite pattern stands for `(-1)^sign * significand * 2^exponent`, with
//! an integer significand below 2^24. The operations of this module are the
//! total order of the standard, the product with 255 truncated to an
//! unsigned 32-bit integer, the conversion of an unsigned 32-bit integer,
//! and the quotient of such an integer and a value, all stated over that
//! reading.

use vstd::prelude::*;
use vstd::arithmetic::div_mod::{
    lemma_basic_div, lemma_div_by_multiple_is_strongly_ordered, lemma_div_denominator,
    lemma_div_is_ordered, lemma_div_is_ordered_by_denominator, lemma_div_multiples_vanish,
    lemma_fundamental_div_mod,
};
use vstd::arithmetic::power2::{
    lemma2_to64, lemma_pow2_adds, lemma_pow2_pos, lemma_pow2_strictly_increases,
    lemma_pow2_unfold, pow2,
};
use vstd::bits::{lemma_u64_shl_is_mul, lemma_u64_shr_is_div};

verus! {

/// Pattern of positive zero.
pub const ZERO: u32 = 0;

/// Pattern of one.
pub const ONE: u32 = 0x3F80_0000;

/// Pattern of one hundred.
pub const HUNDRED: u32 = 0x42C8_0000;

/// Pattern of the binary32 value nearest to one tenth.
pub const TENTH: u32 = 0x3DCC_CCCD;

/// Pattern of negative zero.
pub const NEG_ZERO: u32 = 0x8000_0000;

/// Pattern of positive infinity.
pub const POS_INFINITY: u32 = 0x7F80_0000;

/// Pattern of the quiet NaN that operations of this module give.
pub const QUIET_NAN: u32 = 0x7FC0_0000;

/// The sign bit is set.
pub open spec fn is_negative(bits: u32) -> bool {
    bits >= 0x8000_0000
}

/// The eight exponent bits.
pub open spec fn biased_exponent(bits: u32) -> nat {
    ((bits / 0x80_0000) % 0x100) as nat
}

/// The twenty-three fraction bits.
pub open spec fn fraction(bits: u32) -> nat {
    (bits % 0x80_0000) as nat
}

/// The pattern is a NaN.
pub open spec fn is_nan(bits: u32) -> bool {
    biased_exponent(bits) == 255 && fraction(bits) != 0
}

/// The pattern is an infinity.
pub open spec fn is_infinite(bits: u32) -> bool {
    biased_exponent(bits) == 255 && fraction(bits) == 0
}

/// Integer significand of a finite pattern: the fraction, with the hidden
/// bit where the value is normal.
pub open spec fn significand(bits: u32) -> nat {
    if biased_exponent(bits) == 0 {
        fraction(bits)
    } else {
        fraction(bits) + 0x80_0000
    }
}

/// Power of two that scales the integer significand of a finite pattern.
pub open spec fn exponent(bits: u32) -> int {
    if biased_exponent(bits) == 0 {
        -149
    } else {
        biased_exponent(bits) - 150
    }
}

/// The pattern stands for a value between zero and one, both included.
pub open spec fn in_unit_interval(bits: u32) -> bool {
    bits <= ONE || bits == NEG_ZERO
}

/// Rank of a pattern in the total order of the standard: negative values
/// below positive ones, negative zero just below positive zero, NaNs at the
/// two ends by sign and payload.
pub open spec fn total_order_key(bits: u32) -> int {
    if bits >= 0x8000_0000 {
        0x7FFF_FFFF - bits
    } else {
        bits as int
    }
}

/// Number of low bits that an integer has beyond twenty-four.
pub open spec fn excess_bits(p: nat) -> nat
    decreases p,
{
    if p < 0x100_0000 {
        0
    } else {
        1 + excess_bits(p / 2)
    }
}

/// `num / den` rounded to the nearest integer, ties to the even one.
pub open spec fn round_ratio(num: nat, den: nat) -> nat {
    let q = num / den;
    let r = num % den;
    if 2 * r > den || (2 * r == den && q % 2 == 1) {
        q + 1
    } else {
        q
    }
}

/// `p / 2^k` rounded to the nearest integer, ties to the even one.
pub open spec fn round_half_even(p: nat, k: nat) -> nat {
    round_ratio(p, pow2(k))
}

/// Integer part of `m * 2^e`.
pub open spec fn floor_scaled(m: nat, e: int) -> nat {
    if e >= 0 {
        m * pow2(e as nat)
    } else {
        m / pow2((-e) as nat)
    }
}

/// A natural number cut off at the largest unsigned 32-bit integer.
pub open spec fn clamp_u32(v: nat) -> u32 {
    if v > u32::MAX {
        u32::MAX
    } else {
        v as u32
    }
}

/// What the binary32 product of a value and 255 converts to as an unsigned
/// 32-bit integer: the product is rounded to nearest, ties to even, then
/// truncated toward zero; NaN and negative values give zero, values too
/// large give the largest integer.
pub open spec fn times_255_truncated(bits: u32) -> u32 {
    if is_negative(bits) || is_nan(bits) {
        0
    } else if is_infinite(bits) {
        u32::MAX
    } else {
        let p = significand(bits) * 255;
        let k = excess_bits(p);
        clamp_u32(floor_scaled(round_half_even(p, k), exponent(bits) + k))
    }
}

/// The significand and exponent of a finite value `m * 2^e` with the
/// significand brought into the range from 2^23 up to, but not including,
/// 2^24. Zero stays zero.
pub open spec fn normalise(m: nat, e: int) -> (nat, int)
    decreases 0x100_0000 - m,
{
    if m >= 0x100_0000 {
        (m / 2, e + 1)
    } else if m >= 0x80_0000 || m == 0 {
        (m, e)
    } else {
        normalise(2 * m, e - 1)
    }
}

/// The pattern of the non-negative finite value `m * 2^e`, for `m` up to
/// 2^24 and `e` from -149 up, where `m` is at least 2^23 unless `e` is
/// -149. A value of 2^128 or more gives infinity.
pub open spec fn pack_finite(m: nat, e: int) -> u32 {
    let (m1, e1) = if m >= 0x100_0000 {
        (m / 2, e + 1)
    } else {
        (m, e)
    };
    if m1 < 0x80_0000 {
        m1 as u32
    } else if e1 + 150 >= 255 {
        POS_INFINITY
    } else {
        ((e1 + 150) * 0x80_0000 + (m1 - 0x80_0000)) as u32
    }
}

/// An unsigned 32-bit integer as a binary32 value, rounded to nearest,
/// ties to even: its normalised significand and exponent.
pub open spec fn u32_parts(n: u32) -> (nat, int) {
    let k = excess_bits(n as nat);
    normalise(round_half_even(n as nat, k), k as int)
}

/// The pattern of an unsigned 32-bit integer converted to binary32,
/// rounded to nearest, ties to even.
pub open spec fn u32_to_binary32(n: u32) -> u32 {
    pack_finite(u32_parts(n).0, u32_parts(n).1)
}

/// The pattern of the binary32 quotient of two positive finite values,
/// `ma * 2^ea` over `mb * 2^eb`: the exact quotient rounded to nearest,
/// ties to even, at the precision that its size allows.
pub open spec fn quotient_magnitude(ma: nat, ea: int, mb: nat, eb: int) -> u32 {
    let (na, xa) = normalise(ma, ea);
    let (nb, xb) = normalise(mb, eb);
    let lead: int = if na >= nb {
        23
    } else {
        24
    };
    let e = xa - xb - lead;
    let er = if e < -149 {
        -149
    } else {
        e
    };
    let t = xa - xb - er;
    let num = if t >= 0 {
        na * pow2(t as nat)
    } else {
        na
    };
    let den = if t >= 0 {
        nb
    } else {
        nb * pow2((-t) as nat)
    };
    pack_finite(round_ratio(num, den), er)
}

/// The pattern of the binary32 quotient of an unsigned 32-bit integer,
/// converted to binary32, and a binary32 value. A NaN divisor and zero
/// over zero give the quiet NaN; the sign of every other result is that of
/// the divisor.
pub open spec fn u32_divided_by(n: u32, b: u32) -> u32 {
    let (ma, ea) = u32_parts(n);
    let sign: u32 = if is_negative(b) {
        NEG_ZERO
    } else {
        ZERO
    };
    if is_nan(b) {
        QUIET_NAN
    } else if is_infinite(b) {
        sign
    } else if significand(b) == 0 {
        if ma == 0 {
            QUIET_NAN
        } else {
            (sign + POS_INFINITY) as u32
        }
    } else if ma == 0 {
        sign
    } else {
        (sign + quotient_magnitude(ma, ea, significand(b), exponent(b))) as u32
    }
}

/// Computes the rank of a pattern in the total order.
pub fn order_key(bits: u32) -> (key: i64)
    ensures
        key == total_order_key(bits),
{
    if bits >= 0x8000_0000 {
        0x7FFF_FFFFi64 - (bits as i64)
    } else {
        bits as i64
    }
}

/// The total order tells any two patterns apart.
pub proof fn lemma_total_order_key_injective(a: u32, b: u32)
    ensures
        total_order_key(a) == total_order_key(b) <==> a == b,
        is_negative(a) && !is_negative(b) ==> total_order_key(a) < total_order_key(b),
        total_order_key(NEG_ZERO) == -1,
        total_order_key(ZERO) == 0,
{
}

/// Among patterns of non-negative values the order is that of the patterns.
pub proof fn lemma_total_order_key_monotone(a: u32, b: u32)
    requires
        !is_negative(a),
        !is_negative(b),
    ensures
        total_order_key(a) <= total_order_key(b) <==> a <= b,
{
}

fn excess_bits_of(p: u64) -> (k: u32)
    requires
        p < 0x1_0000_0000,
    ensures
        k == excess_bits(p as nat),
        k <= 8,
        p as nat / pow2(k as nat) < 0x100_0000,
{
    let mut q: u64 = p;
    let mut k: u32 = 0;
    proof {
        lemma2_to64();
    }
    while q >= 0x100_0000
        invariant
            k <= 8,
            p < 0x1_0000_0000,
            q as nat == p as nat / pow2(k as nat),
            q < pow2((32 - k) as nat),
            k + excess_bits(q as nat) == excess_bits(p as nat),
        decreases q,
    {
        proof {
            lemma2_to64();
            if k >= 8 {
                assert(pow2((32 - k) as nat) == pow2(24));
            }
            lemma_pow2_unfold((32 - k) as nat);
            lemma_pow2_unfold((k + 1) as nat);
            lemma_pow2_pos(k as nat);
            lemma_div_denominator(p as int, pow2(k as nat) as int, 2);
        }
        q = q / 2;
        k = k + 1;
    }
    k
}

fn shift_clamped(m: u64, e: i32) -> (v: u32)
    requires
        m <= 0x100_0000,
        -200 <= e <= 200,
    ensures
        v == clamp_u32(floor_scaled(m as nat, e as int)),
{
    if m == 0 {
        proof {
            if e >= 0 {
                assert(0 * pow2(e as nat) == 0);
            } else {
                lemma_pow2_pos((-e) as nat);
                lemma_basic_div(0, pow2((-e) as nat) as int);
            }
        }
        0
    } else if e >= 32 {
        proof {
            lemma2_to64();
            if e > 32 {
                lemma_pow2_strictly_increases(32, e as nat);
            }
            assert(m * pow2(e as nat) >= pow2(e as nat)) by (nonlinear_arith)
                requires
                    m >= 1,
            ;
        }
        u32::MAX
    } else if e >= 0 {
        proof {
            lemma2_to64();
            if e < 31 {
                lemma_pow2_strictly_increases(e as nat, 31);
            }
            assert(m * pow2(e as nat) <= 0x100_0000 * 0x8000_0000) by (nonlinear_arith)
                requires
                    m <= 0x100_0000,
                    pow2(e as nat) <= 0x8000_0000,
            ;
            lemma_u64_shl_is_mul(m, e as u64);
        }
        let wide: u64 = m << (e as u64);
        if wide > 0xFFFF_FFFF {
            u32::MAX
        } else {
            wide as u32
        }
    } else if e <= -25 {
        proof {
            lemma2_to64();
            if e < -25 {
                lemma_pow2_strictly_increases(25, (-e) as nat);
            }
            lemma_basic_div(m as int, pow2((-e) as nat) as int);
        }
        0
    } else {
        let n: u64 = (-e) as u64;
        proof {
            lemma_u64_shr_is_div(m, n);
        }
        (m >> n) as u32
    }
}

fn round_shift(p: u64, k: u32) -> (m: u64)
    requires
        p < 0x1_0000_0000,
        k <= 8,
        p as nat / pow2(k as nat) < 0x100_0000,
    ensures
        m == round_half_even(p as nat, k as nat),
        m <= 0x100_0000,
        p > 0 && k == excess_bits(p as nat) ==> m > 0,
{
    proof {
        lemma2_to64();
        if k < 8 {
            lemma_pow2_strictly_increases(k as nat, 8);
        }
        lemma_u64_shl_is_mul(1, k as u64);
        lemma_pow2_pos(k as nat);
        if p > 0 && k == excess_bits(p as nat) {
            lemma_excess_bits_bounds(p as nat);
            if k == 0 {
                assert(p as nat / pow2(0) == p);
            }
        }
    }
    let unit: u64 = 1u64 << (k as u64);
    let q: u64 = p / unit;
    let r: u64 = p % unit;
    if 2 * r > unit || (2 * r == unit && q % 2 == 1) {
        q + 1
    } else {
        q
    }
}

fn normalised(m: u64, e: i32) -> (r: (u64, i32))
    requires
        m <= 0x100_0000,
        -200 <= e <= 200,
    ensures
        (r.0 as nat, r.1 as int) == normalise(m as nat, e as int),
        m == 0 <==> r.0 == 0,
        m > 0 ==> 0x80_0000 <= r.0 < 0x100_0000,
        e - 23 <= r.1 <= e + 1,
{
    if m >= 0x100_0000 {
        return (m / 2, e + 1);
    }
    let mut mm: u64 = m;
    let mut ee: i32 = e;
    proof {
        lemma2_to64();
    }
    while 0 < mm && mm < 0x80_0000
        invariant
            mm < 0x100_0000,
            m == 0 <==> mm == 0,
            -200 <= e <= 200,
            e - 23 <= ee <= e,
            mm >= pow2((e - ee) as nat) || mm == 0,
            normalise(mm as nat, ee as int) == normalise(m as nat, e as int),
        decreases 0x100_0000 - mm,
    {
        proof {
            lemma2_to64();
            if e - ee >= 23 {
                if e - ee > 23 {
                    lemma_pow2_strictly_increases(23, (e - ee) as nat);
                }
                assert(false);
            }
            lemma_pow2_unfold((e - ee + 1) as nat);
        }
        mm = mm * 2;
        ee = ee - 1;
    }
    (mm, ee)
}

fn packed(m: u64, e: i32) -> (bits: u32)
    requires
        m <= 0x100_0000,
        -149 <= e <= 400,
    ensures
        bits == pack_finite(m as nat, e as int),
        bits <= POS_INFINITY,
{
    let (m1, e1) = if m >= 0x100_0000 {
        (m / 2, e + 1)
    } else {
        (m, e)
    };
    if m1 < 0x80_0000 {
        m1 as u32
    } else if e1 + 150 >= 255 {
        POS_INFINITY
    } else {
        ((e1 + 150) as u32) * 0x80_0000 + ((m1 - 0x80_0000) as u32)
    }
}

fn parts_of_u32(n: u32) -> (r: (u64, i32))
    ensures
        (r.0 as nat, r.1 as int) == u32_parts(n),
        n == 0 <==> r.0 == 0,
        n > 0 ==> 0x80_0000 <= r.0 < 0x100_0000,
        -23 <= r.1 <= 9,
{
    let p: u64 = n as u64;
    let k: u32 = excess_bits_of(p);
    let rounded: u64 = round_shift(p, k);
    proof {
        lemma2_to64();
    }
    normalised(rounded, k as i32)
}

/// Converts an unsigned 32-bit integer to binary32, as the hardware
/// conversion does.
pub fn from_u32(n: u32) -> (bits: u32)
    ensures
        bits == u32_to_binary32(n),
{
    let (m, e) = parts_of_u32(n);
    packed(m, e)
}

fn quotient_of_parts(ma: u64, ea: i32, mb0: u64, eb0: i32) -> (bits: u32)
    requires
        0x80_0000 <= ma < 0x100_0000,
        -23 <= ea <= 9,
        0 < mb0 < 0x100_0000,
        -149 <= eb0 <= 104,
    ensures
        bits == quotient_magnitude(ma as nat, ea as int, mb0 as nat, eb0 as int),
        bits <= POS_INFINITY,
{
    let (mb, eb) = normalised(mb0, eb0);
    let lead: i32 = if ma >= mb {
        23
    } else {
        24
    };
    let e: i32 = ea - eb - lead;
    let er: i32 = if e < -149 {
        -149
    } else {
        e
    };
    let t: i32 = ea - eb - er;
    proof {
        lemma2_to64();
        assert(normalise(ma as nat, ea as int) == (ma as nat, ea as int));
        assert(21 <= t <= 24);
    }
    let scale: u64 = if t == 21 {
        0x20_0000
    } else if t == 22 {
        0x40_0000
    } else if t == 23 {
        0x80_0000
    } else {
        0x100_0000
    };
    assert(scale == pow2(t as nat));
    assert(ma * scale < 0x100_0000 * mb && ma * scale < 0x1_0000_0000_0000) by (nonlinear_arith)
        requires
            0x80_0000 <= ma < 0x100_0000,
            0x80_0000 <= mb < 0x100_0000,
            scale <= 0x100_0000,
            ma >= mb ==> scale <= 0x80_0000,
    ;
    let num: u64 = ma * scale;
    let q: u64 = num / mb;
    let r: u64 = num % mb;
    proof {
        lemma_div_by_multiple_is_strongly_ordered(
            num as int,
            0x100_0000 * mb,
            0x100_0000,
            mb as int,
        );
        lemma_div_multiples_vanish(0x100_0000, mb as int);
        assert(0x100_0000 * mb == mb * 0x100_0000) by (nonlinear_arith);
    }
    let m: u64 = if 2 * r > mb || (2 * r == mb && q % 2 == 1) {
        q + 1
    } else {
        q
    };
    packed(m, er)
}

/// Divides an unsigned 32-bit integer, converted to binary32, by a
/// binary32 value, as the hardware operations do; a NaN result is the
/// quiet NaN.
pub fn divide_u32(n: u32, b: u32) -> (bits: u32)
    ensures
        bits == u32_divided_by(n, b),
{
    let (ma, ea) = parts_of_u32(n);
    let sign: u32 = if b >= 0x8000_0000 {
        NEG_ZERO
    } else {
        ZERO
    };
    let eb: u32 = (b / 0x80_0000) % 0x100;
    let fb: u32 = b % 0x80_0000;
    if eb == 255 {
        return if fb != 0 {
            QUIET_NAN
        } else {
            sign
        };
    }
    let mb: u64 = if eb == 0 {
        fb as u64
    } else {
        fb as u64 + 0x80_0000
    };
    if mb == 0 {
        return if ma == 0 {
            QUIET_NAN
        } else {
            sign + POS_INFINITY
        };
    }
    if ma == 0 {
        return sign;
    }
    let xb: i32 = if eb == 0 {
        -149
    } else {
        eb as i32 - 150
    };
    sign + quotient_of_parts(ma, ea, mb, xb)
}

/// Multiplies a binary32 value by 255 and converts the product to an
/// unsigned 32-bit integer, as the hardware operations do.
pub fn scale_255(bits: u32) -> (v: u32)
    ensures
        v == times_255_truncated(bits),
{
    if bits >= 0x8000_0000 {
        return 0;
    }
    assert(bits >> 23u32 == (bits / 0x80_0000) % 0x100) by (bit_vector)
        requires
            bits < 0x8000_0000u32,
    ;
    assert(bits & 0x7F_FFFFu32 == bits % 0x80_0000) by (bit_vector);
    let e: u32 = bits >> 23;
    let f: u32 = bits & 0x7F_FFFF;
    if e == 255 {
        return if f == 0 {
            u32::MAX
        } else {
            0
        };
    }
    let m: u64 = if e == 0 {
        f as u64
    } else {
        f as u64 + 0x80_0000
    };
    let p: u64 = m * 255;
    let k: u32 = excess_bits_of(p);
    let rounded: u64 = round_shift(p, k);
    let scale: i32 = if e == 0 {
        k as i32 - 149
    } else {
        e as i32 - 150 + k as i32
    };
    shift_clamped(rounded, scale)
}

/// A value between zero and one scales to a byte.
pub proof fn lemma_unit_interval_scales_to_byte(bits: u32)
    requires
        in_unit_interval(bits),
    ensures
        times_255_truncated(bits) <= 255,
        bits == ONE ==> times_255_truncated(bits) == 255,
        bits == ZERO || bits == NEG_ZERO ==> times_255_truncated(bits) == 0,
{
    lemma2_to64();
    if bits == NEG_ZERO {
    } else if bits == ONE {
        let p: nat = 0x7F80_0000;
        assert(significand(bits) * 255 == p);
        reveal_with_fuel(excess_bits, 9);
        assert(excess_bits(p) == 7);
        assert(round_half_even(p, 7) == 0xFF_0000);
        assert(exponent(bits) + 7 == -16);
        assert(pow2(16) == 0x1_0000);
        assert(0xFF_0000nat / 0x1_0000nat == 255);
        assert(floor_scaled(0xFF_0000, -16) == 0xFF_0000nat / pow2(16));
    } else {
        let p = significand(bits) * 255;
        let k = excess_bits(p);
        let e = exponent(bits);
        assert(biased_exponent(bits) <= 126);
        assert(e <= -24);
        assert(p < 255 * 0x100_0000);
        lemma_excess_bits_bounds(p);
        let unit = pow2(k);
        let rounded = round_half_even(p, k);
        lemma_pow2_pos(k);
        lemma_fundamental_div_mod(p as int, unit as int);
        // With span * unit = 2^24: the quotient p / unit lies below 255 * span,
        // and rounding up by one stays at or below it.
        let span = pow2((24 - k) as nat);
        lemma_pow2_adds((24 - k) as nat, k);
        assert(span * unit == 0x100_0000);
        assert(rounded <= 255 * span) by (nonlinear_arith)
            requires
                p < 255 * 0x100_0000,
                span * unit == 0x100_0000,
                unit > 0,
                p == unit * (p / unit) + p % unit,
                0 <= p % unit < unit,
                rounded <= p / unit + 1,
                rounded == p / unit + 1 ==> 2 * (p % unit) >= unit,
        ;
        let n = (-(e + k)) as nat;
        assert(n >= 24 - k);
        if n > 24 - k {
            lemma_pow2_strictly_increases((24 - k) as nat, n);
        }
        lemma_pow2_pos(n);
        lemma_pow2_pos((24 - k) as nat);
        lemma_div_is_ordered_by_denominator(rounded as int, span as int, pow2(n) as int);
        lemma_div_is_ordered(rounded as int, (255 * span) as int, span as int);
        lemma_div_multiples_vanish(255, span as int);
        assert(floor_scaled(rounded, e + k) <= 255);
    }
}

/// The rounded ratio is the integer nearest to the ratio: it is off by at
/// most half, and where it is off by exactly half it is even.
pub proof fn lemma_round_ratio_is_nearest(num: nat, den: nat)
    requires
        den > 0,
    ensures
        2 * (round_ratio(num, den) * den - num) <= den,
        2 * (num - round_ratio(num, den) * den) <= den,
        2 * (round_ratio(num, den) * den - num) == den || 2 * (num - round_ratio(num, den) * den)
            == den ==> round_ratio(num, den) % 2 == 0,
{
    let q = num / den;
    let r = num % den;
    lemma_fundamental_div_mod(num as int, den as int);
    let m = round_ratio(num, den);
    assert(m * den - num == if m == q {
        -r
    } else {
        den - r
    }) by (nonlinear_arith)
        requires
            num == den * q + r,
            m == q || m == q + 1,
    ;
}

/// Normalising a positive significand of at most 2^24 brings it into the
/// range from 2^23 up to, but not including, 2^24; one of at least 2^j
/// lowers the exponent by at most 23 - j.
pub proof fn lemma_normalise_bounds(m: nat, e: int, j: nat)
    requires
        0 < m <= 0x100_0000,
        j <= 23,
        m >= pow2(j),
    ensures
        0x80_0000 <= normalise(m, e).0 < 0x100_0000,
        e - (23 - j) <= normalise(m, e).1 <= e + 1,
    decreases 0x100_0000 - m,
{
    lemma2_to64();
    if m < 0x80_0000 {
        if j == 23 {
            assert(false);
        }
        if j < 22 {
            lemma_pow2_strictly_increases(j, 23);
        }
        lemma_pow2_unfold(j + 1);
        lemma_normalise_bounds(2 * m, e - 1, j + 1);
    }
}

/// A positive integer converts to a normal value: its normalised
/// significand lies from 2^23 up to, but not including, 2^24, and its
/// exponent from -23 to 9. Zero converts to zero.
pub proof fn lemma_u32_parts_bounds(n: u32)
    ensures
        n == 0 ==> u32_parts(n).0 == 0 && u32_to_binary32(n) == ZERO,
        n > 0 ==> 0x80_0000 <= u32_parts(n).0 < 0x100_0000 && -23 <= u32_parts(n).1 <= 9,
        n > 0 ==> normalise(u32_parts(n).0, u32_parts(n).1) == u32_parts(n),
{
    lemma2_to64();
    let k = excess_bits(n as nat);
    let m = round_half_even(n as nat, k);
    lemma_excess_bits_bounds(n as nat);
    lemma_pow2_pos(k);
    if n == 0 {
        assert(k == 0);
        assert(m == 0);
    } else {
        if k == 0 {
            assert(pow2(0) == 1);
            assert((n as nat) / 1 == n && (n as nat) % 1 == 0);
            assert(m == n);
        }
        assert(0 < m <= 0x100_0000);
        lemma_normalise_bounds(m, k as int, 0);
    }
}

/// Dividing an integer by one is converting it.
pub proof fn lemma_divide_by_one(n: u32)
    ensures
        u32_divided_by(n, ONE) == u32_to_binary32(n),
{
    lemma2_to64();
    lemma_u32_parts_bounds(n);
    if n > 0 {
        let (ma, ea) = u32_parts(n);
        assert(significand(ONE) == 0x80_0000 && exponent(ONE) == -23);
        assert(normalise(0x80_0000, -23) == (0x80_0000nat, -23int));
        let num = ma * pow2(23);
        assert(num == 0x80_0000 * ma) by (nonlinear_arith)
            requires
                num == ma * pow2(23),
                pow2(23) == 0x80_0000,
        ;
        lemma_div_multiples_vanish(ma as int, 0x80_0000);
        lemma_fundamental_div_mod(num as int, 0x80_0000);
        assert(round_ratio(num, 0x80_0000) == ma);
        assert(quotient_magnitude(ma, ea, 0x80_0000, -23) == pack_finite(ma, ea));
    }
}

/// An integer below 2^32 has at most eight bits beyond twenty-four, and
/// dropping them leaves fewer than 2^24.
pub proof fn lemma_excess_bits_bounds(p: nat)
    requires
        p < 0x1_0000_0000,
    ensures
        excess_bits(p) <= 8,
        p / pow2(excess_bits(p)) < 0x100_0000,
        excess_bits(p) > 0 ==> p / pow2((excess_bits(p) - 1) as nat) >= 0x100_0000,
        excess_bits(p) > 0 ==> p / pow2(excess_bits(p)) >= 0x80_0000,
{
    lemma2_to64();
    reveal_with_fuel(excess_bits, 10);
    if p < 0x100_0000 {
        assert(excess_bits(p) == 0);
        assert(p / pow2(0) < 0x100_0000);
    } else if p < 0x200_0000 {
        assert(excess_bits(p) == 1);
        assert(p / pow2(1) < 0x100_0000);
        assert(p / pow2(0) >= 0x100_0000);
        assert(p / pow2(1) >= 0x80_0000);
    } else if p < 0x400_0000 {
        assert(excess_bits(p) == 2);
        assert(p / pow2(2) < 0x100_0000);
        assert(p / pow2(1) >= 0x100_0000);
        assert(p / pow2(2) >= 0x80_0000);
    } else if p < 0x800_0000 {
        assert(excess_bits(p) == 3);
        assert(p / pow2(3) < 0x100_0000);
        assert(p / pow2(2) >= 0x100_0000);
        assert(p / pow2(3) >= 0x80_0000);
    } else if p < 0x1000_0000 {
        assert(excess_bits(p) == 4);
        assert(p / pow2(4) < 0x100_0000);
        assert(p / pow2(3) >= 0x100_0000);
        assert(p / pow2(4) >= 0x80_0000);
    } else if p < 0x2000_0000 {
        assert(excess_bits(p) == 5);
        assert(p / pow2(5) < 0x100_0000);
        assert(p / pow2(4) >= 0x100_0000);
        assert(p / pow2(5) >= 0x80_0000);
    } else if p < 0x4000_0000 {
        assert(excess_bits(p) == 6);
        assert(p / pow2(6) < 0x100_0000);
        assert(p / pow2(5) >= 0x100_0000);
        assert(p / pow2(6) >= 0x80_0000);
    } else if p < 0x8000_0000 {
        assert(excess_bits(p) == 7);
        assert(p / pow2(7) < 0x100_0000);
        assert(p / pow2(6) >= 0x100_0000);
        assert(p / pow2(7) >= 0x80_0000);
    } else {
        assert(excess_bits(p) == 8);
        assert(p / pow2(8) < 0x100_0000);
        assert(p / pow2(7) >= 0x100_0000);
        assert(p / pow2(8) >= 0x80_0000);
    }
}

} // verus!
