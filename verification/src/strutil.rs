//! Small trusted bridges to `std` string operations that vstd leaves
//! unspecified.

use vstd::prelude::*;

verus! {

/// Relies on `<str as PartialEq>::eq`: equal slices hold equal
/// character sequences.
#[verifier::external_body]
pub(crate) fn str_eq(a: &str, b: &str) -> (r: bool)
    ensures
        r == (a@ == b@),
{
    a == b
}

/// Relies on `str::chars` collected through `FromIterator` for `Vec`:
/// the characters of the slice, in order.
#[verifier::external_body]
pub(crate) fn string_chars(s: &str) -> (r: Vec<char>)
    ensures
        r@ == s@,
{
    s.chars().collect()
}

/// Relies on `FromIterator` for `String`: the string holding exactly
/// the given characters, in order.
#[verifier::external_body]
pub(crate) fn chars_to_string(v: &Vec<char>) -> (r: String)
    ensures
        r@ == v@,
{
    v.iter().collect()
}

} // verus!
