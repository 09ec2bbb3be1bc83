//! Universally unique identifiers as plain 128-bit values.
//!
//! Identifiers are drawn, printed and parsed by the `uuid` crate. The rest
//! of the library sees an identifier as a `u128` and its text as a sequence
//! of characters.

use vstd::prelude::*;

verus! {

/// The error that `uuid` reports for text that is no identifier.
#[verifier::external_type_specification]
#[verifier::external_body]
pub struct ExUuidError(uuid::Error);

/// Why a text was not accepted as an identifier.
#[derive(Debug, Clone, Copy, PartialEq, Eq, Structural)]
pub enum IdentifierError {
    /// The text is in none of the forms in which an identifier is written.
    Malformed,
}

/// The bits that mark an identifier as randomly drawn: version four in the
/// version field, the RFC 4122 pattern in the variant field.
pub open spec fn is_random(bits: u128) -> bool {
    bits & 0x0000_0000_0000_F000_C000_0000_0000_0000u128
        == 0x0000_0000_0000_4000_8000_0000_0000_0000u128
}

/// The lower-case hexadecimal digit for a value below sixteen.
pub open spec fn hex_digit(value: int) -> char {
    if value < 10 {
        (48 + value) as char
    } else {
        (87 + value) as char
    }
}

/// The `index`-th of the 32 four-bit groups of `bits`, most significant
/// first.
pub open spec fn nibble(bits: u128, index: int) -> int {
    ((bits >> ((4 * (31 - index)) as u128)) & 0xFu128) as int
}

/// The hyphenated lower-case text of an identifier: 32 hexadecimal digits,
/// most significant first, in groups of 8, 4, 4, 4 and 12.
pub open spec fn hyphenated(bits: u128) -> Seq<char> {
    Seq::new(
        36,
        |i: int|
            if i == 8 || i == 13 || i == 18 || i == 23 {
                '-'
            } else if i < 8 {
                hex_digit(nibble(bits, i))
            } else if i < 13 {
                hex_digit(nibble(bits, i - 1))
            } else if i < 18 {
                hex_digit(nibble(bits, i - 2))
            } else if i < 23 {
                hex_digit(nibble(bits, i - 3))
            } else {
                hex_digit(nibble(bits, i - 4))
            },
    )
}

/// What `uuid::Uuid::parse_str` makes of a text: the identifier it reads, or
/// nothing where it reports an error.
pub uninterp spec fn parsed(text: Seq<char>) -> Option<u128>;

/// What reading a text gives, from what the parser made of the text: the
/// identifier, or the verdict that the text is malformed.
pub open spec fn reading(parsed: Option<u128>) -> Result<u128, IdentifierError> {
    match parsed {
        Some(bits) => Ok(bits),
        None => Err(IdentifierError::Malformed),
    }
}

/// Turns the parser's outcome into an identifier or this library's error.
pub fn settle(outcome: Result<u128, uuid::Error>) -> (r: Result<u128, IdentifierError>)
    ensures
        outcome matches Ok(bits) ==> r == Ok::<u128, IdentifierError>(bits),
        outcome is Err ==> r == Err::<u128, IdentifierError>(IdentifierError::Malformed),
{
    match outcome {
        Ok(bits) => Ok(bits),
        Err(_) => Err(IdentifierError::Malformed),
    }
}

/// Draws a fresh random identifier.
///
/// Calls `uuid::Uuid::new_v4` and reads the result with `Uuid::as_u128`.
/// The value is random but for the version and variant fields, which
/// `new_v4` sets to "version four" and "RFC 4122". `uuid` panics where the
/// operating system hands out no random bytes.
#[verifier::external_body]
pub(crate) fn fresh() -> (bits: u128)
    ensures
        is_random(bits),
{
    uuid::Uuid::new_v4().as_u128()
}

/// Prints an identifier.
///
/// Calls `uuid::Uuid::from_u128` and the `Display` impl of `Uuid`, which
/// writes the hyphenated lower-case form. `Uuid::parse_str` reads every form
/// that the crate writes, so it reads this text back as the same identifier.
#[verifier::external_body]
pub(crate) fn to_text(bits: u128) -> (text: String)
    ensures
        text@ == hyphenated(bits),
        parsed(text@) == Some(bits),
{
    uuid::Uuid::from_u128(bits).to_string()
}

/// Parses an identifier.
///
/// Calls `uuid::Uuid::parse_str` and reads a parsed identifier with
/// `Uuid::as_u128`. The outcome depends on the text alone.
#[verifier::external_body]
pub(crate) fn parse(text: &str) -> (r: Result<u128, uuid::Error>)
    ensures
        r is Ok <==> parsed(text@) is Some,
        r matches Ok(bits) ==> parsed(text@) == Some(bits),
{
    match uuid::Uuid::parse_str(text) {
        Ok(id) => Ok(id.as_u128()),
        Err(e) => Err(e),
    }
}

} // verus!
