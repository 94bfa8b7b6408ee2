//! Small trusted shims over std string operations that vstd leaves
//! unspecified.

use vstd::prelude::*;

verus! {

/// Relies on str's `==` (`<str as PartialEq>::eq`): true exactly when the
/// two strings hold the same characters.
#[verifier::external_body]
pub(crate) fn str_eq(a: &str, b: &str) -> (r: bool)
    ensures
        r == (a@ == b@),
{
    a == b
}

/// Relies on `String::push`: appends the one character to the string.
#[verifier::external_body]
pub(crate) fn push_char(s: &mut String, c: char)
    ensures
        final(s)@ == old(s)@.push(c),
{
    s.push(c);
}

} // verus!
