//! Character classification.
//!
//! The Unicode classes (whitespace, alphabetic, alphanumeric, numeric) are
//! provided by the standard library; their tables are far too large to state
//! here, so each class gets an uninterpreted name that the corresponding
//! trusted wrapper ties to the standard-library classifier.  The two ASCII
//! classes are small enough to state and prove outright.

use vstd::prelude::*;

verus! {

/// Whether `c` has the Unicode whitespace property, as `char::is_whitespace`
/// decides it.
pub uninterp spec fn whitespace_char(c: char) -> bool;

/// Whether `c` is alphabetic, as `char::is_alphabetic` decides it.
pub uninterp spec fn alphabetic_char(c: char) -> bool;

/// Whether `c` is alphanumeric, as `char::is_alphanumeric` decides it.
pub uninterp spec fn alphanumeric_char(c: char) -> bool;

/// Whether `c` is numeric, as `char::is_numeric` decides it.
pub uninterp spec fn numeric_char(c: char) -> bool;

/// Relies on char::is_whitespace: the result depends on the character alone.
#[verifier::external_body]
pub(crate) fn is_whitespace_char(c: char) -> (r: bool)
    ensures
        r == whitespace_char(c),
{
    c.is_whitespace()
}

/// Relies on char::is_alphabetic: the result depends on the character alone.
#[verifier::external_body]
pub(crate) fn is_alphabetic_char(c: char) -> (r: bool)
    ensures
        r == alphabetic_char(c),
{
    c.is_alphabetic()
}

/// Relies on char::is_alphanumeric: the result depends on the character alone.
#[verifier::external_body]
pub(crate) fn is_alphanumeric_char(c: char) -> (r: bool)
    ensures
        r == alphanumeric_char(c),
{
    c.is_alphanumeric()
}

/// Relies on char::is_numeric: the result depends on the character alone.
#[verifier::external_body]
pub(crate) fn is_numeric_char(c: char) -> (r: bool)
    ensures
        r == numeric_char(c),
{
    c.is_numeric()
}

/// Whether `c` is an ASCII hexadecimal digit: `0-9`, `a-f` or `A-F`.
pub open spec fn ascii_hexdigit_char(c: char) -> bool {
    (48 <= c as u32 && c as u32 <= 57)  // '0' ..= '9'
    || (97 <= c as u32 && c as u32 <= 102)  // 'a' ..= 'f'
    || (65 <= c as u32 && c as u32 <= 70)  // 'A' ..= 'F'
}

/// Whether `c` is an ASCII punctuation character: one of the four printable
/// ASCII ranges `!..=/`, `:..=@`, `[..=`` ` `` and `{..=~`.
pub open spec fn ascii_punctuation_char(c: char) -> bool {
    (33 <= c as u32 && c as u32 <= 47) || (58 <= c as u32 && c as u32 <= 64) || (91 <= c as u32
        && c as u32 <= 96) || (123 <= c as u32 && c as u32 <= 126)
}

/// Decides [`ascii_hexdigit_char`].
pub(crate) fn is_ascii_hexdigit_char(c: char) -> (r: bool)
    ensures
        r == ascii_hexdigit_char(c),
{
    let u = c as u32;
    (48 <= u && u <= 57) || (97 <= u && u <= 102) || (65 <= u && u <= 70)
}

/// Decides [`ascii_punctuation_char`].
pub(crate) fn is_ascii_punctuation_char(c: char) -> (r: bool)
    ensures
        r == ascii_punctuation_char(c),
{
    let u = c as u32;
    (33 <= u && u <= 47) || (58 <= u && u <= 64) || (91 <= u && u <= 96) || (123 <= u && u <= 126)
}

} // verus!
