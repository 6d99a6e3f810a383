//! Conversions between owned strings and character lists.
//!
//! A styled buffer stores its line as a `Vec<char>`, while the host
//! application and the submit result speak `String`.  The two conversions
//! below are the only places where the library crosses that boundary.

use vstd::prelude::*;

verus! {

/// Relies on `String: FromIterator<char>`: collecting characters yields the
/// string made of exactly those characters.
#[verifier::external_body]
pub(crate) fn chars_to_string(chars: &Vec<char>) -> (r: String)
    ensures
        r@ == chars@,
{
    chars.iter().collect()
}

/// Relies on `str::chars`: the iterator yields the characters of the string
/// in order.
#[verifier::external_body]
pub(crate) fn str_chars(s: &str) -> (r: Vec<char>)
    ensures
        r@ == s@,
{
    s.chars().collect()
}

} // verus!
