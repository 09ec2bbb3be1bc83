//! Signed decimal numerals.
//!
//! A numeral is an optional `+` or `-` followed by one digit or more. The
//! standard library reads numerals; this module says what it reads.

use vstd::prelude::*;

verus! {

/// The error that the standard library reports for text that is no numeral
/// or spells a number out of range.
#[verifier::external_type_specification]
#[verifier::external_body]
pub struct ExParseIntError(core::num::ParseIntError);

/// One digit or more, and nothing else.
pub open spec fn is_digits(text: Seq<char>) -> bool {
    text.len() > 0 && forall|i: int| 0 <= i < text.len() ==> '0' <= #[trigger] text[i] <= '9'
}

/// The number that a run of digits spells.
pub open spec fn digits_value(text: Seq<char>) -> int
    decreases text.len(),
{
    if text.len() == 0 {
        0
    } else {
        digits_value(text.drop_last()) * 10 + (text.last() as int - '0' as int)
    }
}

/// The number that a numeral spells, where the text is a numeral and the
/// number fits 64 bits with a sign.
pub open spec fn value(text: Seq<char>) -> Option<i64> {
    let negative = text.len() > 0 && text[0] == '-';
    let signed = text.len() > 0 && (text[0] == '-' || text[0] == '+');
    let digits = if signed {
        text.skip(1)
    } else {
        text
    };
    let magnitude = digits_value(digits);
    let number = if negative {
        -magnitude
    } else {
        magnitude
    };
    if is_digits(digits) && i64::MIN <= number <= i64::MAX {
        Some(number as i64)
    } else {
        None
    }
}

/// Reads a numeral.
///
/// Calls `str::parse::<i64>`, which accepts an optional sign followed by
/// decimal digits, with nothing before or after, and reports an error for
/// any other text and for a number that does not fit.
#[verifier::external_body]
pub(crate) fn parse(text: &str) -> (r: Result<i64, core::num::ParseIntError>)
    ensures
        r is Ok <==> value(text@) is Some,
        r matches Ok(number) ==> value(text@) == Some(number),
{
    text.parse::<i64>()
}

} // verus!
