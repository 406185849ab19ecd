//! Signed decimal numbers that keep their number of fractional digits,
//! held as plain numbers, with the parsing and printing that rust_decimal
//! provides.

use std::str::FromStr;
use vstd::prelude::*;
use crate::text::{digits, zero_padded};

verus! {

/// The largest number of fractional digits a decimal can have.
pub const MAX_SCALE: u32 = 28;

/// The largest magnitude of a mantissa: 96 bits.
pub const MAX_MANTISSA: i128 = 0xFFFF_FFFF_FFFF_FFFF_FFFF_FFFF;

/// Whether a mantissa and a scale make up a decimal number.
pub open spec fn valid_decimal(mantissa: int, scale: int) -> bool {
    &&& -MAX_MANTISSA <= mantissa <= MAX_MANTISSA
    &&& 0 <= scale <= MAX_SCALE
}

/// The decimal number `mantissa / 10^scale`. Numbers of equal value and
/// different scale, such as 1.5 and 1.50, are kept apart.
#[derive(Clone, Copy, Debug, PartialEq, Eq, Structural)]
pub struct Decimal {
    mantissa: i128,
    scale: u32,
}

impl Decimal {
    #[verifier::type_invariant]
    spec fn well_formed(self) -> bool {
        valid_decimal(self.mantissa as int, self.scale as int)
    }

    /// The digits of the number as a signed integer.
    pub closed spec fn spec_mantissa(&self) -> i128 {
        self.mantissa
    }

    /// How many of the digits stand behind the decimal point.
    pub closed spec fn spec_scale(&self) -> u32 {
        self.scale
    }

    /// Whether the number is within the range of decimals. Every decimal
    /// that the program holds is.
    pub open spec fn is_valid(self) -> bool {
        valid_decimal(self.mantissa() as int, self.scale() as int)
    }

    /// The decimal `mantissa / 10^scale`, if it is within range.
    pub fn new(mantissa: i128, scale: u32) -> (r: Option<Decimal>)
        ensures
            r is Some <==> valid_decimal(mantissa as int, scale as int),
            r matches Some(d) ==> d.mantissa() == mantissa && d.scale() == scale,
    {
        if mantissa < -MAX_MANTISSA || mantissa > MAX_MANTISSA || scale > MAX_SCALE {
            return None;
        }
        Some(Decimal { mantissa, scale })
    }

    /// The digits of the number as a signed integer.
    #[verifier::when_used_as_spec(spec_mantissa)]
    pub fn mantissa(&self) -> (r: i128)
        ensures
            r == self.mantissa(),
            -MAX_MANTISSA <= r <= MAX_MANTISSA,
    {
        proof {
            use_type_invariant(self);
        }
        self.mantissa
    }

    /// How many of the digits stand behind the decimal point.
    #[verifier::when_used_as_spec(spec_scale)]
    pub fn scale(&self) -> (r: u32)
        ensures
            r == self.scale(),
            r <= MAX_SCALE,
    {
        proof {
            use_type_invariant(self);
        }
        self.scale
    }
}

/// The canonical text of the decimal `mantissa / 10^scale`: a minus sign
/// for a negative number, the whole part (`0` where there is none), and,
/// for a positive scale, a point and exactly `scale` fractional digits.
pub open spec fn decimal_text(mantissa: int, scale: nat) -> Seq<char> {
    let magnitude = if mantissa < 0 {
        -mantissa
    } else {
        mantissa
    };
    let all = zero_padded(digits(magnitude as nat), scale);
    let whole = all.take(all.len() - scale);
    let fraction = all.skip(all.len() - scale);
    let sign = if mantissa < 0 {
        seq!['-']
    } else {
        Seq::empty()
    };
    let point = if scale > 0 {
        seq!['.'] + fraction
    } else {
        Seq::empty()
    };
    if whole.len() == 0 {
        sign + seq!['0'] + point
    } else {
        sign + whole + point
    }
}

/// What `rust_decimal::Decimal::from_str` makes of a text: the number, or
/// nothing where the text is no decimal numeral.
pub uninterp spec fn parsed_decimal(text: Seq<char>) -> Option<Decimal>;

/// Calls `rust_decimal::Decimal::from_str`. The outcome depends on the
/// text alone and is named [`parsed_decimal`]; a parsed number is within
/// range, and an error of any kind becomes `None`.
#[verifier::external_body]
pub(crate) fn parse_decimal(text: &str) -> (r: Option<Decimal>)
    ensures
        r == parsed_decimal(text@),
        r matches Some(d) ==> d.is_valid(),
{
    match rust_decimal::Decimal::from_str(text) {
        Ok(d) => Some(Decimal { mantissa: d.mantissa(), scale: d.scale() }),
        Err(_) => None,
    }
}

/// Calls `to_string` on the `rust_decimal::Decimal` of the same mantissa
/// and scale. rust_decimal prints every digit of the mantissa, fills up
/// with zeros to the scale, puts `0` before the point where no digit is
/// left for the whole part, and leads with `-` for a negative number.
#[verifier::external_body]
pub(crate) fn format_decimal(value: &Decimal) -> (text: String)
    ensures
        text@ == decimal_text(value.mantissa() as int, value.scale() as nat),
{
    rust_decimal::Decimal::from_i128_with_scale(value.mantissa, value.scale).to_string()
}

} // verus!
