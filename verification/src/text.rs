//! Numbers written out in decimal, as ASCII bytes.
use vstd::prelude::*;

verus! {

/// The decimal digits of `n`, most significant first, without leading
/// zeros.
pub open spec fn digits(n: nat) -> Seq<u8>
    decreases n,
{
    if n < 10 {
        seq![(48 + n) as u8]
    } else {
        digits(n / 10).push((48 + n % 10) as u8)
    }
}

/// The decimal form of a whole number: a minus sign where it is negative,
/// then its digits.
pub open spec fn numeral(n: int) -> Seq<u8> {
    if n < 0 {
        seq![45u8] + digits((-n) as nat)
    } else {
        digits(n as nat)
    }
}

/// Writes `n` in decimal.
pub fn decimal(n: u64) -> (r: Vec<u8>)
    ensures
        r@ == digits(n as nat),
    decreases n,
{
    if n < 10 {
        let mut r: Vec<u8> = Vec::new();
        r.push(48 + n as u8);
        assert(r@ =~= seq![(48 + n) as u8]);
        r
    } else {
        let mut r = decimal(n / 10);
        r.push(48 + (n % 10) as u8);
        r
    }
}

/// Writes a whole number in decimal, with its sign where it is negative.
pub fn signed_decimal(n: i32) -> (r: Vec<u8>)
    ensures
        r@ == numeral(n as int),
{
    if n < 0 {
        let mut r: Vec<u8> = Vec::new();
        r.push(45);
        let mut d = decimal((-(n as i64)) as u64);
        r.append(&mut d);
        assert(r@ =~= seq![45u8] + digits((-n) as nat));
        r
    } else {
        decimal(n as u64)
    }
}

/// A numeral is made of digits, after at most one sign, and is never
/// empty.
pub proof fn lemma_digits(n: nat)
    ensures
        digits(n).len() >= 1,
        forall|i: int| 0 <= i < digits(n).len() ==> 48 <= #[trigger] digits(n)[i] <= 57,
        n >= 10 ==> digits(n)[0] != 48,
    decreases n,
{
    if n >= 10 {
        lemma_digits(n / 10);
    }
}

} // verus!
