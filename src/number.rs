//! Arbitrary-precision integers, held as a sign and base-2^32 digits.
use vstd::prelude::*;
use num_bigint::{BigInt, Sign};
use std::cmp::Ordering;

verus! {

/// The value of little-endian base-2^32 digits.
pub open spec fn digits_value(d: Seq<u32>) -> nat
    decreases d.len(),
{
    if d.len() == 0 {
        0
    } else {
        d[0] as nat + 4294967296 * digits_value(d.drop_first())
    }
}

/// An integer of any size: `negative` gives the sign, `digits` the magnitude,
/// least significant digit first. Zero may be written with either sign and
/// with any number of zero digits.
#[derive(Debug)]
pub struct Number {
    pub negative: bool,
    pub digits: Vec<u32>,
}

impl View for Number {
    type V = int;

    open spec fn view(&self) -> int {
        if self.negative {
            -(digits_value(self.digits@) as int)
        } else {
            digits_value(self.digits@) as int
        }
    }
}

/// Relies on num_bigint's `BigInt::from(i64)` and `BigInt::to_u32_digits`:
/// the digits of the same integer.
#[verifier::external_body]
fn number_from_i64(v: i64) -> (r: Number)
    ensures
        r@ == v as int,
{
    let (sign, digits) = BigInt::from(v).to_u32_digits();
    Number { negative: sign == Sign::Minus, digits }
}

/// Relies on num_bigint's `Add` for `&BigInt`: the exact sum. The operands are
/// built with `BigInt::from_slice` and the result read back with
/// `BigInt::to_u32_digits`, both of which keep the value.
#[verifier::external_body]
fn number_add(a: &Number, b: &Number) -> (r: Number)
    ensures
        r@ == a@ + b@,
{
    let x = BigInt::from_slice(if a.negative { Sign::Minus } else { Sign::Plus }, &a.digits);
    let y = BigInt::from_slice(if b.negative { Sign::Minus } else { Sign::Plus }, &b.digits);
    let (sign, digits) = (&x + &y).to_u32_digits();
    Number { negative: sign == Sign::Minus, digits }
}

/// Relies on num_bigint's `Sub` for `&BigInt`: the exact difference. The operands are
/// built with `BigInt::from_slice` and the result read back with
/// `BigInt::to_u32_digits`, both of which keep the value.
#[verifier::external_body]
fn number_sub(a: &Number, b: &Number) -> (r: Number)
    ensures
        r@ == a@ - b@,
{
    let x = BigInt::from_slice(if a.negative { Sign::Minus } else { Sign::Plus }, &a.digits);
    let y = BigInt::from_slice(if b.negative { Sign::Minus } else { Sign::Plus }, &b.digits);
    let (sign, digits) = (&x - &y).to_u32_digits();
    Number { negative: sign == Sign::Minus, digits }
}

/// Relies on num_bigint's `Mul` for `&BigInt`: the exact product. The operands are
/// built with `BigInt::from_slice` and the result read back with
/// `BigInt::to_u32_digits`, both of which keep the value.
#[verifier::external_body]
fn number_mul(a: &Number, b: &Number) -> (r: Number)
    ensures
        r@ == a@ * b@,
{
    let x = BigInt::from_slice(if a.negative { Sign::Minus } else { Sign::Plus }, &a.digits);
    let y = BigInt::from_slice(if b.negative { Sign::Minus } else { Sign::Plus }, &b.digits);
    let (sign, digits) = (&x * &y).to_u32_digits();
    Number { negative: sign == Sign::Minus, digits }
}

/// Relies on num_bigint's `Ord` for `BigInt`: the order of the integers. The
/// operands are built with `BigInt::from_slice`, which keeps the value.
#[verifier::external_body]
fn number_cmp(a: &Number, b: &Number) -> (r: Ordering)
    ensures
        (r == Ordering::Less) == (a@ < b@),
        (r == Ordering::Equal) == (a@ == b@),
        (r == Ordering::Greater) == (a@ > b@),
{
    let x = BigInt::from_slice(if a.negative { Sign::Minus } else { Sign::Plus }, &a.digits);
    let y = BigInt::from_slice(if b.negative { Sign::Minus } else { Sign::Plus }, &b.digits);
    x.cmp(&y)
}

impl Number {
    pub fn from_i64(v: i64) -> (r: Number)
        ensures
            r@ == v as int,
    {
        number_from_i64(v)
    }

    pub fn add(&self, other: &Number) -> (r: Number)
        ensures
            r@ == self@ + other@,
    {
        number_add(self, other)
    }

    pub fn sub(&self, other: &Number) -> (r: Number)
        ensures
            r@ == self@ - other@,
    {
        number_sub(self, other)
    }

    pub fn mul(&self, other: &Number) -> (r: Number)
        ensures
            r@ == self@ * other@,
    {
        number_mul(self, other)
    }

    pub fn compare(&self, other: &Number) -> (r: Ordering)
        ensures
            (r == Ordering::Less) == (self@ < other@),
            (r == Ordering::Equal) == (self@ == other@),
            (r == Ordering::Greater) == (self@ > other@),
    {
        number_cmp(self, other)
    }

    pub fn equals(&self, other: &Number) -> (r: bool)
        ensures
            r == (self@ == other@),
    {
        match number_cmp(self, other) {
            Ordering::Equal => true,
            _ => false,
        }
    }

    /// A copy with the same sign and digits.
    pub fn duplicate(&self) -> (r: Number)
        ensures
            r@ == self@,
            r.negative == self.negative,
            r.digits@ == self.digits@,
    {
        let mut digits: Vec<u32> = Vec::new();
        let mut i: usize = 0;
        while i < self.digits.len()
            invariant
                i <= self.digits@.len(),
                digits@ == self.digits@.subrange(0, i as int),
            decreases self.digits@.len() - i,
        {
            digits.push(self.digits[i]);
            i = i + 1;
        }
        assert(digits@ =~= self.digits@);
        Number { negative: self.negative, digits }
    }
}

} // verus!
