//! Fixed-scale decimal numbers.
//!
//! A value is held as an integer mantissa and a power-of-ten scale, the
//! representation `rust_decimal` uses: the value is `mantissa / 10^scale`.
//! Conversion from text and the four arithmetic operations are done by
//! `rust_decimal` behind trusted wrappers; negation and rendering to text are
//! specified exactly over the representation.

use vstd::prelude::*;

verus! {

/// The largest mantissa a decimal can carry: 2^96 - 1.
pub const MAX_DEC_MANTISSA: i128 = 79228162514264337593543950335;

/// The largest scale a decimal can carry.
pub const MAX_DEC_SCALE: u32 = 28;

/// A fixed-scale decimal: the value `mantissa / 10^scale`.
#[derive(Debug, Clone, Copy, PartialEq, Eq, Hash, Structural)]
pub struct Decimal {
    pub mantissa: i128,
    pub scale: u32,
}

/// The representation invariant: the mantissa fits in 96 bits and the scale
/// is at most 28.
pub open spec fn dec_valid(d: Decimal) -> bool {
    &&& -MAX_DEC_MANTISSA <= d.mantissa <= MAX_DEC_MANTISSA
    &&& d.scale <= MAX_DEC_SCALE
}

// ---------------------------------------------------------------------------
// Names for the outside results.
// ---------------------------------------------------------------------------

/// What `rust_decimal`'s `from_str` yields on a plain decimal literal.
pub uninterp spec fn dec_from_str_of(s: Seq<char>) -> Option<Decimal>;

/// What `rust_decimal`'s `checked_add` yields.
pub uninterp spec fn dec_add_of(a: Decimal, b: Decimal) -> Option<Decimal>;

/// What `rust_decimal`'s `checked_sub` yields.
pub uninterp spec fn dec_sub_of(a: Decimal, b: Decimal) -> Option<Decimal>;

/// What `rust_decimal`'s `checked_mul` yields.
pub uninterp spec fn dec_mul_of(a: Decimal, b: Decimal) -> Option<Decimal>;

/// What `rust_decimal`'s `checked_div` yields.
pub uninterp spec fn dec_div_of(a: Decimal, b: Decimal) -> Option<Decimal>;

// ---------------------------------------------------------------------------
// The shape and exact value of plain decimal literals.
// ---------------------------------------------------------------------------

pub open spec fn spec_all_digits(s: Seq<char>) -> bool {
    forall|i: int| 0 <= i < s.len() ==> crate::chars::spec_digit(#[trigger] s[i])
}

/// The numeric value of a digit string.
pub open spec fn spec_digits_val(s: Seq<char>) -> nat
    decreases s.len(),
{
    if s.len() == 0 {
        0
    } else {
        (spec_digits_val(s.drop_last()) * 10 + (s.last() as int - '0' as int)) as nat
    }
}

/// Splits a sequence at its first `'.'`: the part before, and the part after.
/// A sequence without a dot splits into itself and the empty sequence.
pub open spec fn spec_dot_split(s: Seq<char>) -> (Seq<char>, Seq<char>)
    decreases s.len(),
{
    if s.len() == 0 {
        (Seq::empty(), Seq::empty())
    } else if s[0] == '.' {
        (Seq::empty(), s.skip(1))
    } else {
        let r = spec_dot_split(s.skip(1));
        (seq![s[0]] + r.0, r.1)
    }
}

/// A plain decimal literal: one or more digits, optionally followed by a dot
/// and any number of digits.
pub open spec fn spec_plain_dec_shape(s: Seq<char>) -> bool {
    let ip = spec_dot_split(s).0;
    let fp = spec_dot_split(s).1;
    &&& ip.len() > 0
    &&& spec_all_digits(ip)
    &&& spec_all_digits(fp)
    &&& (s == ip || s == ip + seq!['.'] + fp)
}

/// Whether the literal's digits fit the decimal representation.
pub open spec fn spec_dec_fits(s: Seq<char>) -> bool {
    let ip = spec_dot_split(s).0;
    let fp = spec_dot_split(s).1;
    &&& spec_digits_val(ip + fp) <= MAX_DEC_MANTISSA
    &&& fp.len() <= MAX_DEC_SCALE
}

/// The exact value of a fitting literal: the digits as mantissa, the length
/// of the fractional part as scale.
pub open spec fn spec_dec_of_literal(s: Seq<char>) -> Decimal {
    let ip = spec_dot_split(s).0;
    let fp = spec_dot_split(s).1;
    Decimal { mantissa: spec_digits_val(ip + fp) as i128, scale: fp.len() as u32 }
}

// ---------------------------------------------------------------------------
// Trusted wrappers.
// ---------------------------------------------------------------------------

/// Relies on `rust_decimal::Decimal::from_str` (and on `mantissa`/`scale`
/// reading the representation back): on a plain decimal literal whose digits
/// fit in 96 bits and whose fractional part has at most 28 digits, it yields
/// exactly those digits as mantissa with the fractional length as scale;
/// every successful conversion satisfies the representation invariant.
#[verifier::external_body]
pub fn dec_from_chars(v: &Vec<char>) -> (r: Option<Decimal>)
    ensures
        r == dec_from_str_of(v@),
        spec_plain_dec_shape(v@) && spec_dec_fits(v@) ==> r == Some(spec_dec_of_literal(v@)),
        r matches Some(d) ==> dec_valid(d),
{
    let s: String = v.iter().collect();
    match <rust_decimal::Decimal as core::str::FromStr>::from_str(&s) {
        Ok(d) => Some(Decimal { mantissa: d.mantissa(), scale: d.scale() }),
        Err(_) => None,
    }
}

/// Relies on `rust_decimal::Decimal::checked_add`: exact decimal addition,
/// `None` on overflow.
#[verifier::external_body]
pub fn dec_add(a: Decimal, b: Decimal) -> (r: Option<Decimal>)
    requires
        dec_valid(a),
        dec_valid(b),
    ensures
        r == dec_add_of(a, b),
        r matches Some(d) ==> dec_valid(d),
{
    let ra = rust_decimal::Decimal::from_i128_with_scale(a.mantissa, a.scale);
    let rb = rust_decimal::Decimal::from_i128_with_scale(b.mantissa, b.scale);
    match ra.checked_add(rb) {
        Some(d) => Some(Decimal { mantissa: d.mantissa(), scale: d.scale() }),
        None => None,
    }
}

/// Relies on `rust_decimal::Decimal::checked_sub`: exact decimal subtraction,
/// `None` on overflow.
#[verifier::external_body]
pub fn dec_sub(a: Decimal, b: Decimal) -> (r: Option<Decimal>)
    requires
        dec_valid(a),
        dec_valid(b),
    ensures
        r == dec_sub_of(a, b),
        r matches Some(d) ==> dec_valid(d),
{
    let ra = rust_decimal::Decimal::from_i128_with_scale(a.mantissa, a.scale);
    let rb = rust_decimal::Decimal::from_i128_with_scale(b.mantissa, b.scale);
    match ra.checked_sub(rb) {
        Some(d) => Some(Decimal { mantissa: d.mantissa(), scale: d.scale() }),
        None => None,
    }
}

/// Relies on `rust_decimal::Decimal::checked_mul`: decimal multiplication,
/// rounded to the representable precision, `None` on overflow.
#[verifier::external_body]
pub fn dec_mul(a: Decimal, b: Decimal) -> (r: Option<Decimal>)
    requires
        dec_valid(a),
        dec_valid(b),
    ensures
        r == dec_mul_of(a, b),
        r matches Some(d) ==> dec_valid(d),
{
    let ra = rust_decimal::Decimal::from_i128_with_scale(a.mantissa, a.scale);
    let rb = rust_decimal::Decimal::from_i128_with_scale(b.mantissa, b.scale);
    match ra.checked_mul(rb) {
        Some(d) => Some(Decimal { mantissa: d.mantissa(), scale: d.scale() }),
        None => None,
    }
}

/// Relies on `rust_decimal::Decimal::checked_div`: decimal division, rounded
/// to the representable precision, `None` on division by zero or overflow.
#[verifier::external_body]
pub fn dec_div(a: Decimal, b: Decimal) -> (r: Option<Decimal>)
    requires
        dec_valid(a),
        dec_valid(b),
    ensures
        r == dec_div_of(a, b),
        r matches Some(d) ==> dec_valid(d),
{
    let ra = rust_decimal::Decimal::from_i128_with_scale(a.mantissa, a.scale);
    let rb = rust_decimal::Decimal::from_i128_with_scale(b.mantissa, b.scale);
    match ra.checked_div(rb) {
        Some(d) => Some(Decimal { mantissa: d.mantissa(), scale: d.scale() }),
        None => None,
    }
}

// ---------------------------------------------------------------------------
// Negation: pure arithmetic on the representation.
// ---------------------------------------------------------------------------

pub open spec fn spec_dec_neg(d: Decimal) -> Decimal {
    Decimal { mantissa: -d.mantissa as i128, scale: d.scale }
}

/// Negates a decimal by negating its mantissa.
pub fn dec_neg(d: Decimal) -> (r: Decimal)
    requires
        dec_valid(d),
    ensures
        r == spec_dec_neg(d),
        dec_valid(r),
{
    Decimal { mantissa: -d.mantissa, scale: d.scale }
}

// ---------------------------------------------------------------------------
// Rendering to text.
// ---------------------------------------------------------------------------

pub open spec fn spec_digit_char(d: nat) -> char {
    if d == 0 { '0' }
    else if d == 1 { '1' }
    else if d == 2 { '2' }
    else if d == 3 { '3' }
    else if d == 4 { '4' }
    else if d == 5 { '5' }
    else if d == 6 { '6' }
    else if d == 7 { '7' }
    else if d == 8 { '8' }
    else { '9' }
}

/// The decimal digits of `n`, most significant first; empty when `n` is 0.
pub open spec fn spec_dec_digits(n: nat) -> Seq<char>
    decreases n,
{
    if n == 0 {
        Seq::empty()
    } else {
        spec_dec_digits(n / 10).push(spec_digit_char(n % 10))
    }
}

pub open spec fn spec_zeros(n: nat) -> Seq<char> {
    Seq::new(n, |i| '0')
}

/// The canonical text of a decimal: sign, whole digits (at least one), and,
/// when the scale is positive, a dot followed by exactly `scale` digits.
pub open spec fn spec_dec_string(d: Decimal) -> Seq<char> {
    let m = (if d.mantissa < 0 { -d.mantissa } else { d.mantissa as int }) as nat;
    let sign: Seq<char> = if d.mantissa < 0 { seq!['-'] } else { Seq::empty() };
    let digs = spec_dec_digits(m);
    if d.scale == 0 {
        sign + (if m == 0 { seq!['0'] } else { digs })
    } else {
        let padded = if digs.len() >= d.scale + 1 {
            digs
        } else {
            spec_zeros((d.scale + 1 - digs.len()) as nat) + digs
        };
        sign + padded.take(padded.len() - d.scale) + seq!['.'] + padded.skip(
            padded.len() - d.scale,
        )
    }
}

/// Relies on `rust_decimal`'s `Display`: the digits of the absolute mantissa,
/// padded with leading zeros so at least one digit stands before the decimal
/// point, with the point placed `scale` digits from the right and a leading
/// minus sign for negative values.
#[verifier::external_body]
pub fn dec_to_chars(d: Decimal) -> (r: Vec<char>)
    requires
        dec_valid(d),
    ensures
        r@ == spec_dec_string(d),
{
    let rd = rust_decimal::Decimal::from_i128_with_scale(d.mantissa, d.scale);
    let s = format!("{}", rd);
    s.chars().collect()
}

} // verus!
