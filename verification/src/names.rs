//! Sanitizing of human-authored names into identifier text.

use vstd::prelude::*;

verus! {

/// Whether a character is alphanumeric in the Unicode sense, which is what
/// `char::is_alphanumeric` reports.
pub uninterp spec fn alphanumeric(c: char) -> bool;

/// `char::is_alphanumeric` answers by the Unicode tables alone; the answer is
/// given the name [`alphanumeric`]. Trusted, not proved.
pub assume_specification[ char::is_alphanumeric ](c: char) -> (b: bool)
    ensures
        b == alphanumeric(c),
;

/// What one character of a name becomes in an identifier.
pub open spec fn filtered(c: char) -> char {
    if alphanumeric(c) || c == '_' {
        c
    } else {
        '_'
    }
}

/// What a whole name becomes: every character filtered, none added or dropped.
pub open spec fn sanitized(name: Seq<char>) -> Seq<char> {
    Seq::new(name.len(), |i: int| filtered(name[i]))
}

/// Keeps alphanumeric characters and the underscore; turns every other
/// character into an underscore.
pub fn name_filter(c: char) -> (r: char)
    ensures
        r == filtered(c),
{
    if c.is_alphanumeric() || c == '_' {
        c
    } else {
        '_'
    }
}

/// Applies [`name_filter`] to every character of `name`.
pub fn sanitize(name: &str) -> (r: String)
    ensures
        r@ == sanitized(name@),
{
    let mut out = String::new();
    for c in it: name.chars()
        invariant
            it.seq() == name@,
            out@ == sanitized(name@.take(it.index())),
    {
        out.push(name_filter(c));
    }
    out
}

/// Sanitizing is idempotent: a sanitized name is left as it is.
pub proof fn sanitize_is_idempotent(name: Seq<char>)
    ensures
        sanitized(sanitized(name)) == sanitized(name),
{
}

} // verus!
