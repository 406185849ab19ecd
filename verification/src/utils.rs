//! Converters between raw cell texts and typed values. A cell that is
//! absent or does not parse gives an absent value, never an error.

use vstd::prelude::*;
use crate::calendar::{
    format_date, parse_date, parse_datetime, parsed_date, parsed_datetime, ymd_pattern, ymd_text,
    NaiveDate, NaiveDateTime,
};
use crate::decimal::{decimal_text, format_decimal, parse_decimal, parsed_decimal, Decimal};
use crate::homebank::HomeBankPaymentType;
use crate::text::{digit_to_char, digits, is_ascii_digit, is_digit, lowercase, numeral, same_text};

verus! {

/// The timestamp that a cell holds under a pattern.
pub open spec fn datetime_of(cell: Option<Seq<char>>, pattern: Seq<char>) -> Option<NaiveDateTime> {
    match cell {
        Some(text) => parsed_datetime(text, pattern),
        None => None,
    }
}

/// The date that a cell holds under a pattern.
pub open spec fn date_of(cell: Option<Seq<char>>, pattern: Seq<char>) -> Option<NaiveDate> {
    match cell {
        Some(text) => parsed_date(text, pattern),
        None => None,
    }
}

/// The decimal that a cell holds as a plain numeral.
pub open spec fn decimal_of(cell: Option<Seq<char>>) -> Option<Decimal> {
    match cell {
        Some(text) => parsed_decimal(text),
        None => None,
    }
}

/// What cleaning makes of one character: digits and the minus sign stay,
/// a comma becomes the decimal point, everything else is dropped.
pub open spec fn cleaned_char(c: char) -> Option<char> {
    if is_digit(c) || c == '-' {
        Some(c)
    } else if c == ',' {
        Some('.')
    } else {
        None
    }
}

/// A locale-formatted number reduced to a plain numeral, character by
/// character in the order of the text.
pub open spec fn cleaned(text: Seq<char>) -> Seq<char>
    decreases text.len(),
{
    if text.len() == 0 {
        Seq::empty()
    } else {
        match cleaned_char(text.last()) {
            Some(c) => cleaned(text.drop_last()).push(c),
            None => cleaned(text.drop_last()),
        }
    }
}

/// The decimal that a cell holds in locale format, with a comma for the
/// decimal point.
pub open spec fn locale_decimal_of(cell: Option<Seq<char>>) -> Option<Decimal> {
    match cell {
        Some(text) => parsed_decimal(cleaned(text)),
        None => None,
    }
}

/// The text of an optional date in a HomeBank file.
pub open spec fn date_text(value: Option<NaiveDate>) -> Seq<char> {
    match value {
        Some(d) => ymd_text(d),
        None => Seq::empty(),
    }
}

/// The text of an optional text field in a HomeBank file.
pub open spec fn option_text(value: Option<Seq<char>>) -> Seq<char> {
    match value {
        Some(s) => s,
        None => Seq::empty(),
    }
}

/// The text of an optional amount in a HomeBank file.
pub open spec fn amount_text(value: Option<Decimal>) -> Seq<char> {
    match value {
        Some(d) => decimal_text(d.mantissa() as int, d.scale() as nat),
        None => Seq::empty(),
    }
}

/// Whether a cell is present and equal to `b` when both are put in lower
/// case.
pub open spec fn equals_ignore_case(a: Option<Seq<char>>, b: Seq<char>) -> bool {
    a matches Some(s) && lowercase(s) == lowercase(b)
}

/// Parses a cell as a timestamp under the pattern `fmt`.
pub fn to_naive_datetime(s: Option<&str>, fmt: &str) -> (r: Option<NaiveDateTime>)
    ensures
        r == datetime_of(s.deep_view(), fmt@),
        r matches Some(t) ==> t.is_valid(),
{
    match s {
        Some(s) => parse_datetime(s, fmt),
        None => None,
    }
}

/// Parses a cell as a date under the pattern `fmt`.
pub fn to_naive_date(s: Option<&str>, fmt: &str) -> (r: Option<NaiveDate>)
    ensures
        r == date_of(s.deep_view(), fmt@),
        r matches Some(d) ==> d.is_valid(),
{
    match s {
        Some(s) => parse_date(s, fmt),
        None => None,
    }
}

/// Keeps a cell's text as it is, without trimming.
pub fn to_string(s: Option<&str>) -> (r: Option<String>)
    ensures
        r.deep_view() == s.deep_view(),
{
    match s {
        Some(s) => Some(s.to_owned()),
        None => None,
    }
}

/// Parses a cell as a plain decimal numeral.
pub fn to_decimal_direct(s: Option<&str>) -> (r: Option<Decimal>)
    ensures
        r == decimal_of(s.deep_view()),
        r matches Some(d) ==> d.is_valid(),
{
    match s {
        Some(s) => parse_decimal(s),
        None => None,
    }
}

/// Reduces a locale-formatted number to a plain numeral: see [`cleaned`].
pub fn clean_decimal_text(s: &str) -> (clean: String)
    ensures
        clean@ == cleaned(s@),
{
    let mut clean = String::new();
    for c in it: s.chars()
        invariant
            it.seq() == s@,
            clean@ == cleaned(s@.take(it.index() as int)),
    {
        assert(s@.take(it.index() + 1).drop_last() == s@.take(it.index() as int));
        if is_ascii_digit(c) || c == '-' {
            clean.push(c);
        } else if c == ',' {
            clean.push('.');
        }
    }
    assert(s@.take(s@.len() as int) == s@);
    clean
}

/// Parses a cell as a decimal in locale format: the text is cleaned first.
pub fn to_decimal(s: Option<&str>) -> (r: Option<Decimal>)
    ensures
        r == locale_decimal_of(s.deep_view()),
        r matches Some(d) ==> d.is_valid(),
{
    match s {
        Some(s) => {
            let clean = clean_decimal_text(s);
            parse_decimal(clean.as_str())
        },
        None => None,
    }
}

/// The date as `YYYY-MM-DD`, or the empty text for an absent date. The
/// text of a date parses back to that date under the same pattern.
pub fn naive_date_to_string(value: &Option<NaiveDate>) -> (text: String)
    ensures
        text@ == date_text(*value),
        *value matches Some(d) ==> parsed_date(text@, ymd_pattern()) == Some(d),
{
    if let Some(d) = value {
        return format_date(d, "%Y-%m-%d");
    }
    String::new()
}

/// The text itself, or the empty text for an absent one.
pub fn option_to_string(value: &Option<String>) -> (text: String)
    ensures
        text@ == option_text(value.deep_view()),
{
    if let Some(s) = value {
        return s.clone();
    }
    String::new()
}

/// The canonical text of the amount, or the empty text for an absent one.
pub fn decimal_to_string(value: &Option<Decimal>) -> (text: String)
    ensures
        text@ == amount_text(*value),
{
    if let Some(d) = value {
        return format_decimal(d);
    }
    String::new()
}

/// The payment code as a decimal numeral.
pub fn payment_to_string(value: &HomeBankPaymentType) -> (text: String)
    ensures
        text@ == numeral(value.code() as nat),
{
    let code = value.code();
    let mut text = String::new();
    if code >= 10 {
        text.push(digit_to_char(code / 10));
    }
    text.push(digit_to_char(code % 10));
    proof {
        reveal_with_fuel(digits, 3);
        assert(text@ == numeral(code as nat));
    }
    text
}

/// Whether the cell is present and equal to `b` without regard to case.
pub fn option_equals_to_str_ignore_case(a: &Option<String>, b: &str) -> (r: bool)
    ensures
        r == equals_ignore_case(a.deep_view(), b@),
{
    if let Some(s) = a {
        let left = s.as_str().to_lowercase();
        let right = b.to_lowercase();
        return same_text(left.as_str(), right.as_str());
    }
    false
}

/// Whether a text is made of digits and minus signs alone, the characters
/// that cleaning keeps as they are.
pub open spec fn is_plain_numeral(text: Seq<char>) -> bool {
    forall|i: int| 0 <= i < text.len() ==> is_digit(#[trigger] text[i]) || text[i] == '-'
}

/// Cleaning leaves a text of digits and minus signs as it is.
pub proof fn lemma_cleaned_keeps_plain_numeral(text: Seq<char>)
    requires
        is_plain_numeral(text),
    ensures
        cleaned(text) == text,
    decreases text.len(),
{
    if text.len() > 0 {
        lemma_cleaned_keeps_plain_numeral(text.drop_last());
        assert(is_digit(text[text.len() - 1]) || text[text.len() - 1] == '-');
        assert(text.drop_last().push(text.last()) == text);
    }
}

/// A cleaned text is no longer than the text it came from and holds only
/// digits, minus signs and decimal points; it holds a point only where the
/// text held a comma.
pub proof fn lemma_cleaned_characters(text: Seq<char>)
    ensures
        cleaned(text).len() <= text.len(),
        forall|i: int|
            0 <= i < cleaned(text).len() ==> is_digit(#[trigger] cleaned(text)[i]) || cleaned(
                text,
            )[i] == '-' || cleaned(text)[i] == '.',
        !text.contains(',') ==> is_plain_numeral(cleaned(text)),
    decreases text.len(),
{
    if text.len() > 0 {
        let front = text.drop_last();
        lemma_cleaned_characters(front);
        if !text.contains(',') {
            assert(text.last() == text[text.len() - 1]);
            assert(text.last() != ',');
            assert forall|c: char| front.contains(c) implies text.contains(c) by {
                let i = choose|i: int| 0 <= i < front.len() && front[i] == c;
                assert(text[i] == c);
            }
        }
    }
}

/// Cleaning twice gives what cleaning once gives, for every text without a
/// comma. (A comma becomes a point, and a second cleaning drops the point.)
pub proof fn lemma_cleaned_idempotent(text: Seq<char>)
    requires
        !text.contains(','),
    ensures
        cleaned(cleaned(text)) == cleaned(text),
{
    lemma_cleaned_characters(text);
    lemma_cleaned_keeps_plain_numeral(cleaned(text));
}

} // verus!
