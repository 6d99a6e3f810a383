//! Input filters: composable predicates on characters, applied to every
//! literal keystroke before it becomes an insertion.  A rejected character
//! is silently dropped.

use vstd::prelude::*;

use crate::chars::alphabetic_char;
use crate::chars::alphanumeric_char;
use crate::chars::ascii_hexdigit_char;
use crate::chars::ascii_punctuation_char;
use crate::chars::is_alphabetic_char;
use crate::chars::is_alphanumeric_char;
use crate::chars::is_ascii_hexdigit_char;
use crate::chars::is_ascii_punctuation_char;
use crate::chars::is_numeric_char;
use crate::chars::is_whitespace_char;
use crate::chars::numeric_char;
use crate::chars::whitespace_char;

verus! {

/// A rule deciding which characters are accepted as input.  Rules compose:
/// [`InputFilter::Not`] negates one rule and [`InputFilter::Options`]
/// accepts a character that matches any of its rules.
pub enum InputFilter {
    /// Alphabetic characters.
    Alphabetic,
    /// Alphabetic characters and digits.
    AlphaNumeric,
    /// Numeric characters.
    Digit,
    /// Any character.
    Text,
    /// ASCII hexadecimal digits.
    HexDigit,
    /// Whitespace.
    Whitespace,
    /// ASCII punctuation.
    Punctuation,
    /// Everything the inner filter rejects.
    Not(Box<InputFilter>),
    /// Anything at least one of the inner filters accepts.
    Options(Vec<InputFilter>),
    /// Exactly the listed characters.  A host-supplied predicate function
    /// cannot carry a contract, so a custom rule is written as an explicit
    /// table of accepted characters; `Not` and `Options` compose it into
    /// richer rules.
    Custom(Vec<char>),
}

/// Which characters a filter accepts.
pub open spec fn filter_accepts(ch: char, f: InputFilter) -> bool
    decreases f,
{
    match f {
        InputFilter::Alphabetic => alphabetic_char(ch),
        InputFilter::AlphaNumeric => alphanumeric_char(ch),
        InputFilter::Digit => numeric_char(ch),
        InputFilter::Text => true,
        InputFilter::HexDigit => ascii_hexdigit_char(ch),
        InputFilter::Whitespace => whitespace_char(ch),
        InputFilter::Punctuation => ascii_punctuation_char(ch),
        InputFilter::Not(inner) => !filter_accepts(ch, *inner),
        InputFilter::Options(filters) => exists|i: int|
            0 <= i < filters@.len() && filter_accepts(ch, #[trigger] filters@[i]),
        InputFilter::Custom(chars) => chars@.contains(ch),
    }
}

/// Decide whether `ch` matches the rules of the given filter.
#[verifier::loop_isolation(false)]
pub fn filter_input(ch: char, input_filter: &InputFilter) -> (r: bool)
    ensures
        r == filter_accepts(ch, *input_filter),
    decreases *input_filter,
{
    match input_filter {
        InputFilter::Alphabetic => is_alphabetic_char(ch),
        InputFilter::AlphaNumeric => is_alphanumeric_char(ch),
        InputFilter::Digit => is_numeric_char(ch),
        InputFilter::Text => true,
        InputFilter::HexDigit => is_ascii_hexdigit_char(ch),
        InputFilter::Whitespace => is_whitespace_char(ch),
        InputFilter::Punctuation => is_ascii_punctuation_char(ch),
        InputFilter::Not(inner) => !filter_input(ch, inner),
        InputFilter::Options(filters) => {
            let mut i: usize = 0;
            while i < filters.len()
                invariant
                    i <= filters.len(),
                    forall|j: int| 0 <= j < i ==> !filter_accepts(ch, #[trigger] filters@[j]),
                decreases filters.len() - i,
            {
                if filter_input(ch, &filters[i]) {
                    return true;
                }
                i += 1;
            }
            false
        },
        InputFilter::Custom(chars) => {
            let mut i: usize = 0;
            while i < chars.len()
                invariant
                    i <= chars.len(),
                    forall|j: int| 0 <= j < i ==> chars@[j] != ch,
                decreases chars.len() - i,
            {
                if chars[i] == ch {
                    proof {
                        assert(chars@[i as int] == ch);
                    }
                    return true;
                }
                i += 1;
            }
            false
        },
    }
}

} // verus!
