//! Single-precision scalars as bit patterns: sign, magnitude, order.
use vstd::prelude::*;

verus! {

/// The sign bit.
pub const SIGN: u32 = 0x8000_0000;

/// Positive infinity; every larger magnitude is a NaN.
pub const INFINITY: u32 = 0x7F80_0000;

/// The number one.
pub const ONE: u32 = 0x3F80_0000;

/// The pattern without its sign bit.
pub open spec fn magnitude(bits: u32) -> int {
    if bits >= SIGN {
        bits - SIGN
    } else {
        bits as int
    }
}

/// The pattern encodes no number.
pub open spec fn nan(bits: u32) -> bool {
    magnitude(bits) > INFINITY
}

/// The pattern is one of the two zeros.
pub open spec fn zero(bits: u32) -> bool {
    magnitude(bits) == 0
}

/// The pattern is a number strictly greater than zero.
pub open spec fn positive(bits: u32) -> bool {
    0 < bits <= INFINITY
}

/// Place of the pattern in the IEEE-754 total order: patterns with the sign
/// bit clear count upwards from zero, those with it set count downwards
/// from minus one.
pub open spec fn key(bits: u32) -> int {
    if bits < SIGN {
        bits as int
    } else {
        -1 - (bits - SIGN)
    }
}

/// Numeric "strictly less than": false when either side is a NaN, and the
/// two zeros are equal.
pub open spec fn less(a: u32, b: u32) -> bool {
    !nan(a) && !nan(b) && !(zero(a) && zero(b)) && key(a) < key(b)
}

/// The pattern is a number strictly less than zero.
pub open spec fn negative(bits: u32) -> bool {
    less(bits, 0)
}

/// Of two patterns the one that stands later in the total order; the second
/// where they are the same.
pub open spec fn later(a: u32, b: u32) -> u32 {
    if key(a) > key(b) {
        a
    } else {
        b
    }
}

/// Of two patterns the one that stands earlier in the total order; the first
/// where they are the same.
pub open spec fn earlier(a: u32, b: u32) -> u32 {
    if key(b) < key(a) {
        b
    } else {
        a
    }
}

/// The pattern of the opposite sign.
pub open spec fn opposite(bits: u32) -> u32 {
    if bits >= SIGN {
        (bits - SIGN) as u32
    } else {
        (bits + SIGN) as u32
    }
}

/// Flips the sign bit: the negative of a number, and the other zero of a
/// zero.
pub fn negated(bits: u32) -> (r: u32)
    ensures
        r == opposite(bits),
        magnitude(r) == magnitude(bits),
        opposite(r) == bits,
{
    if bits >= SIGN {
        bits - SIGN
    } else {
        bits + SIGN
    }
}

/// Two to the power `e`.
pub open spec fn two_to(e: nat) -> nat
    decreases e,
{
    if e == 0 {
        1
    } else {
        2 * two_to((e - 1) as nat)
    }
}

/// The exponent field of the pattern, still biased by 127.
pub open spec fn exponent(bits: u32) -> int {
    magnitude(bits) / 0x80_0000
}

/// The fraction field of the pattern.
pub open spec fn fraction(bits: u32) -> int {
    magnitude(bits) % 0x80_0000
}

/// The whole part of the absolute value of a number: its significand,
/// the fraction with the hidden one in front, moved by the exponent, and
/// what falls behind the point cut off.
pub open spec fn whole_magnitude(bits: u32) -> int {
    let e = exponent(bits) - 127;
    let significand = 0x80_0000 + fraction(bits);
    if e < 0 {
        0
    } else if e <= 23 {
        significand / (two_to((23 - e) as nat) as int)
    } else {
        significand * two_to((e - 23) as nat)
    }
}

/// The number as a whole number of 32 bits: cut off towards zero, held at
/// the ends of the range, and zero for what is no number.
pub open spec fn whole_part(bits: u32) -> int {
    if nan(bits) {
        0
    } else if bits >= SIGN {
        if whole_magnitude(bits) > 0x8000_0000 {
            -0x8000_0000
        } else {
            -whole_magnitude(bits)
        }
    } else {
        if whole_magnitude(bits) > 0x7FFF_FFFF {
            0x7FFF_FFFF
        } else {
            whole_magnitude(bits)
        }
    }
}

/// Powers of two grow with the exponent.
pub proof fn lemma_two_to_grows(a: nat, b: nat)
    requires
        a <= b,
    ensures
        two_to(a) <= two_to(b),
        two_to(a) >= 1,
    decreases b,
{
    if a < b {
        lemma_two_to_grows(a, (b - 1) as nat);
    } else if a > 0 {
        lemma_two_to_grows((a - 1) as nat, (a - 1) as nat);
    }
}

fn power_of_two(e: u32) -> (p: u64)
    requires
        e <= 23,
    ensures
        p == two_to(e as nat),
        1 <= p <= 0x80_0000,
{
    let mut p: u64 = 1;
    let mut i: u32 = 0;
    assert(two_to(23) == 0x80_0000) by {
        reveal_with_fuel(two_to, 24);
    }
    while i < e
        invariant
            i <= e <= 23,
            p == two_to(i as nat),
            1 <= p <= 0x80_0000,
            two_to(23) == 0x80_0000,
        decreases e - i,
    {
        proof {
            lemma_two_to_grows((i + 1) as nat, 23);
        }
        p = p * 2;
        i += 1;
    }
    p
}

/// The whole number that `bits` stands for, as the conversion of a
/// single-precision number to a 32-bit integer gives it.
pub fn whole(bits: u32) -> (r: i32)
    ensures
        r == whole_part(bits),
{
    if is_nan(bits) {
        return 0;
    }
    let m: u32 = magnitude_of(bits);
    let biased: u32 = m / 0x80_0000;
    let significand: u64 = 0x80_0000 + (m % 0x80_0000) as u64;
    let size: u64 = if biased < 127 {
        0
    } else if biased <= 150 {
        significand / power_of_two(150 - biased)
    } else if biased <= 157 {
        let p = power_of_two(biased - 150);
        proof {
            assert(two_to(7) == 128) by {
                reveal_with_fuel(two_to, 8);
            }
            lemma_two_to_grows((biased - 150) as nat, 7);
            assert(significand * p <= 0x100_0000 * 128) by (nonlinear_arith)
                requires
                    significand <= 0x100_0000,
                    p <= 128,
            ;
        }
        significand * p
    } else {
        proof {
            assert(two_to(8) == 256) by {
                reveal_with_fuel(two_to, 9);
            }
            lemma_two_to_grows(8, (biased - 150) as nat);
            let q = two_to((biased - 150) as nat);
            assert(significand * q >= 0x80_0000 * 256) by (nonlinear_arith)
                requires
                    significand >= 0x80_0000,
                    q >= 256,
            ;
        }
        0x8000_0000
    };
    if bits >= SIGN {
        if size >= 0x8000_0000 {
            i32::MIN
        } else {
            -(size as i32)
        }
    } else {
        if size > 0x7FFF_FFFF {
            i32::MAX
        } else {
            size as i32
        }
    }
}

/// The place of `bits` in the total order.
pub fn order_key(bits: u32) -> (k: i32)
    ensures
        k == key(bits),
{
    if bits < SIGN {
        bits as i32
    } else {
        -1i32 - ((bits - SIGN) as i32)
    }
}

/// Whether `bits` encodes no number.
pub fn is_nan(bits: u32) -> (r: bool)
    ensures
        r == nan(bits),
{
    if bits >= SIGN {
        bits - SIGN > INFINITY
    } else {
        bits > INFINITY
    }
}

/// Whether `bits` is plus or minus zero.
pub fn is_zero(bits: u32) -> (r: bool)
    ensures
        r == zero(bits),
{
    bits == 0 || bits == SIGN
}

/// Whether `bits` is a number strictly greater than zero.
pub fn is_positive(bits: u32) -> (r: bool)
    ensures
        r == positive(bits),
{
    0 < bits && bits <= INFINITY
}

/// Numeric comparison `a < b`.
pub fn lt(a: u32, b: u32) -> (r: bool)
    ensures
        r == less(a, b),
{
    if is_nan(a) || is_nan(b) {
        false
    } else if is_zero(a) && is_zero(b) {
        false
    } else {
        order_key(a) < order_key(b)
    }
}

/// The later of two patterns in the total order.
pub fn later_of(a: u32, b: u32) -> (r: u32)
    ensures
        r == later(a, b),
{
    if order_key(a) > order_key(b) {
        a
    } else {
        b
    }
}

/// The earlier of two patterns in the total order.
pub fn earlier_of(a: u32, b: u32) -> (r: u32)
    ensures
        r == earlier(a, b),
{
    if order_key(b) < order_key(a) {
        b
    } else {
        a
    }
}

/// The pattern with its sign bit cleared: the absolute value.
pub fn magnitude_of(bits: u32) -> (r: u32)
    ensures
        r == magnitude(bits),
{
    if bits >= SIGN {
        bits - SIGN
    } else {
        bits
    }
}

/// Two patterns have the same place in the total order only if they are the
/// same pattern.
pub proof fn lemma_key_injective(a: u32, b: u32)
    requires
        key(a) == key(b),
    ensures
        a == b,
{
}

/// A number greater than zero stands after both zeros and after every
/// pattern with the sign bit set.
pub proof fn lemma_positive_key(a: u32, b: u32)
    requires
        positive(a),
        !positive(b),
        !nan(b),
    ensures
        key(b) < key(a),
        less(b, a),
{
}

} // verus!
