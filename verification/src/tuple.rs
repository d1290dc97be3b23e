//! Tagged triples: points, vectors and colours.
use vstd::prelude::*;
use crate::scalar::{
    exponent, fraction, is_zero, lemma_two_to_grows, less, lt, nan, negated, opposite, two_to,
    whole, whole_magnitude, whole_part, zero, SIGN,
};
use crate::text::{numeral, signed_decimal};

verus! {

/// What a triple stands for.
#[derive(Clone, Copy, Debug, PartialEq, Eq, Structural)]
pub enum TupleType {
    Vector,
    Point,
    Color,
    Undefined,
}

impl TupleType {
    /// The tag of a sum (and of a difference) of two triples: a point moved
    /// by a vector is a point, two vectors or two points give a vector,
    /// colours combine to a colour, anything else is undefined.
    pub open spec fn sum(self, rhs: TupleType) -> TupleType {
        match (self, rhs) {
            (TupleType::Point, TupleType::Vector) | (TupleType::Vector, TupleType::Point) => {
                TupleType::Point
            },
            (TupleType::Vector, TupleType::Vector) | (TupleType::Point, TupleType::Point) => {
                TupleType::Vector
            },
            (TupleType::Color, TupleType::Color) => TupleType::Color,
            _ => TupleType::Undefined,
        }
    }

    /// Combines the tags of two operands.
    pub fn add(self, rhs: TupleType) -> (r: TupleType)
        ensures
            r == self.sum(rhs),
    {
        match (self, rhs) {
            (TupleType::Point, TupleType::Vector) => TupleType::Point,
            (TupleType::Vector, TupleType::Point) => TupleType::Point,
            (TupleType::Vector, TupleType::Vector) => TupleType::Vector,
            (TupleType::Point, TupleType::Point) => TupleType::Vector,
            (TupleType::Color, TupleType::Color) => TupleType::Color,
            _ => TupleType::Undefined,
        }
    }

    /// The order of the operands does not matter.
    pub proof fn lemma_sum_commutes(a: TupleType, b: TupleType)
        ensures
            a.sum(b) == b.sum(a),
    {
    }

    /// Once undefined, always undefined; and a colour mixes with nothing
    /// but a colour.
    pub proof fn lemma_sum_undefined(a: TupleType, b: TupleType)
        ensures
            a.sum(TupleType::Undefined) == TupleType::Undefined,
            (a == TupleType::Color) != (b == TupleType::Color) ==> a.sum(b)
                == TupleType::Undefined,
    {
    }
}

impl Default for TupleType {
    fn default() -> (r: TupleType)
        ensures
            r == TupleType::Point,
    {
        TupleType::Point
    }
}

/// Two hundred and fifty-five: the brightest a channel of a picture gets.
pub const FULL: u32 = 0x437F_0000;

/// A channel held between nought and `FULL`: what is greater becomes `FULL`,
/// what is less than nought becomes nought, and what is no number stays.
pub open spec fn clamped(bits: u32) -> u32 {
    if less(FULL, bits) {
        FULL
    } else if less(bits, 0) {
        0
    } else {
        bits
    }
}

/// A channel held in range is written into a picture as a whole number
/// from 0 to 255.
pub proof fn lemma_clamped_whole(bits: u32)
    ensures
        0 <= whole_part(clamped(bits)) <= 255,
{
    let c = clamped(bits);
    assert(two_to(16) == 0x1_0000 && two_to(17) == 0x2_0000) by {
        reveal_with_fuel(two_to, 18);
    }
    if nan(c) {
    } else if c >= SIGN {
        assert(c == SIGN);
    } else {
        assert(c <= FULL);
        let e = exponent(c) - 127;
        let significand = 0x80_0000 + fraction(c);
        if e < 0 {
        } else if e == 7 {
            assert(significand <= 0xFF_0000);
            assert(whole_magnitude(c) == significand / 0x1_0000);
        } else {
            lemma_two_to_grows(17, (23 - e) as nat);
            let d = two_to((23 - e) as nat) as int;
            assert(0 <= significand / d <= 127) by (nonlinear_arith)
                requires
                    0 <= significand < 0x100_0000,
                    d >= 0x2_0000,
            ;
        }
    }
}

fn clamp_channel(bits: u32) -> (r: u32)
    ensures
        r == clamped(bits),
{
    if lt(FULL, bits) {
        FULL
    } else if lt(bits, 0) {
        0
    } else {
        bits
    }
}

/// The negative of a channel; of either zero, the positive zero.
pub open spec fn flipped(bits: u32) -> u32 {
    if zero(bits) {
        0
    } else {
        opposite(bits)
    }
}

fn flip(bits: u32) -> (r: u32)
    ensures
        r == flipped(bits),
{
    if is_zero(bits) {
        0
    } else {
        negated(bits)
    }
}

/// Three scalars, each an IEEE-754 single-precision bit pattern, and a tag.
/// Equality is equality of the patterns and of the tag.
#[derive(Clone, Copy, Debug, PartialEq, Eq, Structural)]
pub struct Tuple {
    pub x: u32,
    pub y: u32,
    pub z: u32,
    pub w: TupleType,
}

impl Tuple {
    pub fn new(x: u32, y: u32, z: u32, w: TupleType) -> (r: Tuple)
        ensures
            r == (Tuple { x, y, z, w }),
    {
        Tuple { x, y, z, w }
    }

    pub fn point(x: u32, y: u32, z: u32) -> (r: Tuple)
        ensures
            r == (Tuple { x, y, z, w: TupleType::Point }),
    {
        Tuple { x, y, z, w: TupleType::Point }
    }

    pub fn vector(x: u32, y: u32, z: u32) -> (r: Tuple)
        ensures
            r == (Tuple { x, y, z, w: TupleType::Vector }),
    {
        Tuple { x, y, z, w: TupleType::Vector }
    }

    pub fn color(x: u32, y: u32, z: u32) -> (r: Tuple)
        ensures
            r == (Tuple { x, y, z, w: TupleType::Color }),
    {
        Tuple { x, y, z, w: TupleType::Color }
    }

    /// The colour whose channels, already scaled to the range of a
    /// picture, are held between nought and `FULL`.
    pub fn clamp(&self) -> (r: Tuple)
        ensures
            r == (Tuple {
                x: clamped(self.x),
                y: clamped(self.y),
                z: clamped(self.z),
                w: TupleType::Color,
            }),
    {
        Tuple::color(clamp_channel(self.x), clamp_channel(self.y), clamp_channel(self.z))
    }

    /// The opposite triple, with the same tag; a zero stays a positive
    /// zero.
    pub fn neg(self) -> (r: Tuple)
        ensures
            r == (Tuple {
                x: flipped(self.x),
                y: flipped(self.y),
                z: flipped(self.z),
                w: self.w,
            }),
    {
        Tuple::new(flip(self.x), flip(self.y), flip(self.z), self.w)
    }

    /// The line of a picture file for this colour: the whole parts of its
    /// three channels in decimal, a blank between them and a line feed at
    /// the end.
    pub open spec fn line(self) -> Seq<u8> {
        numeral(whole_part(self.x)) + seq![32u8] + numeral(whole_part(self.y)) + seq![32u8]
            + numeral(whole_part(self.z)) + seq![10u8]
    }

    /// Writes the colour as a line of a picture file.
    pub fn as_str(&self) -> (r: Vec<u8>)
        ensures
            r@ == self.line(),
    {
        let mut r = signed_decimal(whole(self.x));
        r.push(32);
        let mut y = signed_decimal(whole(self.y));
        r.append(&mut y);
        r.push(32);
        let mut z = signed_decimal(whole(self.z));
        r.append(&mut z);
        r.push(10);
        assert(r@ =~= self.line());
        r
    }

    /// Black.
    pub open spec fn black() -> Tuple {
        Tuple { x: 0, y: 0, z: 0, w: TupleType::Color }
    }

    /// The colour of an untouched pixel and of a ray that hits nothing.
    pub fn default_color() -> (r: Tuple)
        ensures
            r == Tuple::black(),
    {
        Tuple { x: 0, y: 0, z: 0, w: TupleType::Color }
    }
}

} // verus!
