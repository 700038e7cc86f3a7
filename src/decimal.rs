use rust_decimal::{Decimal, MathematicalOps};
use std::str::FromStr;
use vstd::prelude::*;

verus! {

/// Largest magnitude of a mantissa: 2^96 - 1.
pub const MAX_MANTISSA: i128 = 0xFFFF_FFFF_FFFF_FFFF_FFFF_FFFF;

/// Largest number of digits after the decimal point.
pub const MAX_SCALE: u32 = 28;

/// An exact decimal number `mantissa / 10^scale`.
#[derive(Debug, Clone, Copy, PartialEq, Eq)]
pub struct Dec {
    pub mantissa: i128,
    pub scale: u32,
}

impl Dec {
    /// The mantissa and scale lie in the range of a 96-bit decimal.
    pub open spec fn wf(self) -> bool {
        &&& -MAX_MANTISSA <= self.mantissa <= MAX_MANTISSA
        &&& self.scale <= MAX_SCALE
    }

    /// `mantissa / 10^scale`.
    pub fn new(mantissa: i128, scale: u32) -> (r: Dec)
        requires
            -MAX_MANTISSA <= mantissa <= MAX_MANTISSA,
            scale <= MAX_SCALE,
        ensures
            r.mantissa == mantissa,
            r.scale == scale,
            r.wf(),
    {
        Dec { mantissa, scale }
    }

    /// The integer `n`.
    pub fn from_int(n: i64) -> (r: Dec)
        ensures
            r.mantissa == n,
            r.scale == 0,
            r.wf(),
    {
        Dec { mantissa: n as i128, scale: 0 }
    }

    pub open spec fn negated(self) -> Dec {
        Dec { mantissa: (-self.mantissa) as i128, scale: self.scale }
    }

    /// Arithmetic negation: the sign flips, the scale stays.
    pub fn neg(&self) -> (r: Dec)
        requires
            self.wf(),
        ensures
            r == self.negated(),
            r.wf(),
    {
        Dec { mantissa: -self.mantissa, scale: self.scale }
    }
}

/// What `Decimal::from_str` reads from a text, when it reads a number.
pub uninterp spec fn decimal_literal(s: Seq<char>) -> Option<Dec>;

/// The digit character of `d`, below ten.
pub open spec fn digit_char(d: nat) -> char {
    if d == 0 { '0' } else if d == 1 { '1' } else if d == 2 { '2' } else if d == 3 { '3' }
    else if d == 4 { '4' } else if d == 5 { '5' } else if d == 6 { '6' } else if d == 7 { '7' }
    else if d == 8 { '8' } else { '9' }
}

/// The decimal digits of `n`, most significant first.
pub open spec fn digits_of(n: nat) -> Seq<char>
    decreases n,
{
    if n < 10 {
        seq![digit_char(n)]
    } else {
        digits_of(n / 10).push(digit_char(n % 10))
    }
}

/// How a decimal is written: a `-` when negative, the digits of the magnitude
/// of the mantissa (at least `scale` of them, zeros in front), and a point
/// `scale` places from the right; a lone `0` before the point when nothing
/// else stands there.
pub open spec fn decimal_text(d: Dec) -> Seq<char> {
    let a = if d.mantissa < 0 { -d.mantissa } else { d.mantissa as int };
    let raw = if a == 0 { Seq::<char>::empty() } else { digits_of(a as nat) };
    let pad = if d.scale > raw.len() { d.scale - raw.len() } else { 0 };
    let padded = Seq::new(pad as nat, |i: int| '0') + raw;
    let cut = padded.len() - d.scale;
    let whole = padded.subrange(0, cut);
    let fraction = padded.subrange(cut, padded.len() as int);
    let sign = if d.mantissa < 0 { seq!['-'] } else { Seq::<char>::empty() };
    let point = if d.scale > 0 { seq!['.'] + fraction } else { Seq::<char>::empty() };
    sign + (if whole.len() == 0 { seq!['0'] } else { whole }) + point
}

/// `Decimal::checked_add`.
pub uninterp spec fn decimal_sum(a: Dec, b: Dec) -> Option<Dec>;

/// `Decimal::checked_sub`.
pub uninterp spec fn decimal_difference(a: Dec, b: Dec) -> Option<Dec>;

/// `Decimal::checked_mul`.
pub uninterp spec fn decimal_product(a: Dec, b: Dec) -> Option<Dec>;

/// `Decimal::checked_div`.
pub uninterp spec fn decimal_quotient(a: Dec, b: Dec) -> Option<Dec>;

/// `MathematicalOps::checked_powd`.
pub uninterp spec fn decimal_power(a: Dec, b: Dec) -> Option<Dec>;

/// `MathematicalOps::checked_sin`.
pub uninterp spec fn decimal_sine(a: Dec) -> Option<Dec>;

/// `MathematicalOps::checked_cos`.
pub uninterp spec fn decimal_cosine(a: Dec) -> Option<Dec>;

/// Relies on `Decimal::from_str` to read a numeric literal; every `Decimal`
/// has a mantissa below 2^96 in magnitude and a scale of at most 28.
#[verifier::external_body]
pub(crate) fn parse_literal(s: &str) -> (r: Option<Dec>)
    ensures
        r == decimal_literal(s@),
        r matches Some(d) ==> d.wf(),
{
    Decimal::from_str(s).ok().map(|d| Dec { mantissa: d.mantissa(), scale: d.scale() })
}

/// Relies on `Decimal`'s `Display` (`str::to_str_internal` with no precision,
/// then `pad_integral` for the sign) to write a number as text.
#[verifier::external_body]
pub(crate) fn to_text(a: Dec) -> (r: String)
    requires
        a.wf(),
    ensures
        r@ == decimal_text(a),
{
    Decimal::from_i128_with_scale(a.mantissa, a.scale).to_string()
}

/// Relies on `Decimal::checked_add`: `None` on overflow.
#[verifier::external_body]
pub(crate) fn checked_add(a: Dec, b: Dec) -> (r: Option<Dec>)
    requires
        a.wf(),
        b.wf(),
    ensures
        r == decimal_sum(a, b),
        r matches Some(d) ==> d.wf(),
{
    let x = Decimal::from_i128_with_scale(a.mantissa, a.scale);
    let y = Decimal::from_i128_with_scale(b.mantissa, b.scale);
    x.checked_add(y).map(|d| Dec { mantissa: d.mantissa(), scale: d.scale() })
}

/// Relies on `Decimal::checked_sub`: `None` on overflow.
#[verifier::external_body]
pub(crate) fn checked_sub(a: Dec, b: Dec) -> (r: Option<Dec>)
    requires
        a.wf(),
        b.wf(),
    ensures
        r == decimal_difference(a, b),
        r matches Some(d) ==> d.wf(),
{
    let x = Decimal::from_i128_with_scale(a.mantissa, a.scale);
    let y = Decimal::from_i128_with_scale(b.mantissa, b.scale);
    x.checked_sub(y).map(|d| Dec { mantissa: d.mantissa(), scale: d.scale() })
}

/// Relies on `Decimal::checked_mul`: `None` on overflow.
#[verifier::external_body]
pub(crate) fn checked_mul(a: Dec, b: Dec) -> (r: Option<Dec>)
    requires
        a.wf(),
        b.wf(),
    ensures
        r == decimal_product(a, b),
        r matches Some(d) ==> d.wf(),
{
    let x = Decimal::from_i128_with_scale(a.mantissa, a.scale);
    let y = Decimal::from_i128_with_scale(b.mantissa, b.scale);
    x.checked_mul(y).map(|d| Dec { mantissa: d.mantissa(), scale: d.scale() })
}

/// Relies on `Decimal::checked_div`: `None` on overflow or a zero divisor.
#[verifier::external_body]
pub(crate) fn checked_div(a: Dec, b: Dec) -> (r: Option<Dec>)
    requires
        a.wf(),
        b.wf(),
    ensures
        r == decimal_quotient(a, b),
        r matches Some(d) ==> d.wf(),
        b.mantissa == 0 ==> r is None,
{
    let x = Decimal::from_i128_with_scale(a.mantissa, a.scale);
    let y = Decimal::from_i128_with_scale(b.mantissa, b.scale);
    x.checked_div(y).map(|d| Dec { mantissa: d.mantissa(), scale: d.scale() })
}

/// Relies on `MathematicalOps::checked_powd`: `None` on overflow.
#[verifier::external_body]
pub(crate) fn checked_pow(a: Dec, b: Dec) -> (r: Option<Dec>)
    requires
        a.wf(),
        b.wf(),
    ensures
        r == decimal_power(a, b),
        r matches Some(d) ==> d.wf(),
{
    let x = Decimal::from_i128_with_scale(a.mantissa, a.scale);
    let y = Decimal::from_i128_with_scale(b.mantissa, b.scale);
    x.checked_powd(y).map(|d| Dec { mantissa: d.mantissa(), scale: d.scale() })
}

/// Relies on `MathematicalOps::checked_sin`: the sine of a number in radians.
#[verifier::external_body]
pub(crate) fn checked_sin(a: Dec) -> (r: Option<Dec>)
    requires
        a.wf(),
    ensures
        r == decimal_sine(a),
        r matches Some(d) ==> d.wf(),
{
    let x = Decimal::from_i128_with_scale(a.mantissa, a.scale);
    x.checked_sin().map(|d| Dec { mantissa: d.mantissa(), scale: d.scale() })
}

/// Relies on `MathematicalOps::checked_cos`: the cosine of a number in radians.
#[verifier::external_body]
pub(crate) fn checked_cos(a: Dec) -> (r: Option<Dec>)
    requires
        a.wf(),
    ensures
        r == decimal_cosine(a),
        r matches Some(d) ==> d.wf(),
{
    let x = Decimal::from_i128_with_scale(a.mantissa, a.scale);
    x.checked_cos().map(|d| Dec { mantissa: d.mantissa(), scale: d.scale() })
}

} // verus!
