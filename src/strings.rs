//! Thin wrappers around the few `String` and `str` operations that the
//! verified code needs and that vstd does not specify.

use vstd::prelude::*;

verus! {

/// What `str::trim_end` leaves of a text: the text without its trailing
/// whitespace, as Unicode's White_Space property defines it.
pub uninterp spec fn trimmed_end(s: Seq<char>) -> Seq<char>;

/// Relies on `String::push`: the character is added at the end.
#[verifier::external_body]
pub(crate) fn push_char(s: &mut String, c: char)
    ensures
        final(s)@ == old(s)@.push(c),
{
    s.push(c)
}

/// Relies on `String::pop`: the last character is removed and returned, and
/// an empty string stays as it is.
#[verifier::external_body]
pub(crate) fn pop_char(s: &mut String) -> (r: Option<char>)
    ensures
        old(s)@.len() == 0 ==> r is None && final(s)@ == old(s)@,
        old(s)@.len() > 0 ==> r == Some(old(s)@.last()) && final(s)@ == old(s)@.drop_last(),
{
    s.pop()
}

/// Relies on `str::chars`: the characters of the text, in order.
#[verifier::external_body]
pub(crate) fn chars_of(s: &str) -> (r: Vec<char>)
    ensures
        r@ == s@,
{
    s.chars().collect()
}

/// Relies on `str::trim_end`: the result depends on the text alone, is a
/// prefix of it (so an empty text stays empty), and does not end with a line
/// feed, which counts as whitespace.
#[verifier::external_body]
pub(crate) fn trim_trailing(s: &str) -> (r: String)
    ensures
        r@ == trimmed_end(s@),
        r@.len() <= s@.len(),
        r@ == s@.subrange(0, r@.len() as int),
        r@.len() > 0 ==> r@.last() != '\n',
{
    s.trim_end().to_string()
}

} // verus!
