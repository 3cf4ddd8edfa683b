//! Text primitives shared by the rest of the crate: the few string operations of
//! the standard library that `vstd` gives no specification, trimming, and the
//! rendering of unsigned integers.

use vstd::prelude::*;

verus! {

/// Appending one character, as `String::push` does: the string grows by exactly
/// that character at its end. Trusted, not proved.
pub assume_specification[ String::push ](s: &mut String, c: char)
    ensures
        final(s)@ == old(s)@.push(c),
;

/// Equality of two string slices, as `==` on `str` decides it: they are equal
/// exactly when they hold the same characters in the same order. Trusted, not
/// proved.
#[verifier::external_body]
pub(crate) fn same_text(a: &str, b: &str) -> (r: bool)
    ensures
        r == (a@ == b@),
{
    a == b
}

/// Whether a character is white space in the Unicode sense, which is what
/// `char::is_whitespace` reports.
pub uninterp spec fn whitespace(c: char) -> bool;

/// `char::is_whitespace` answers by the Unicode `White_Space` property alone;
/// the answer is given the name [`whitespace`]. Trusted, not proved.
pub assume_specification[ char::is_whitespace ](c: char) -> (b: bool)
    ensures
        b == whitespace(c),
;

/// The lower-case form of a text, as `str::to_lowercase` gives it.
pub uninterp spec fn lowercased(s: Seq<char>) -> Seq<char>;

/// `str::to_lowercase` maps a text to its lower-case form by the Unicode
/// tables; the result depends on the characters alone and is given the name
/// [`lowercased`]. Trusted, not proved.
pub assume_specification[ str::to_lowercase ](s: &str) -> (r: String)
    ensures
        r@ == lowercased(s@),
;

/// A text without the white space at its start.
pub open spec fn without_leading_space(s: Seq<char>) -> Seq<char>
    decreases s.len(),
{
    if s.len() > 0 && whitespace(s.first()) {
        without_leading_space(s.drop_first())
    } else {
        s
    }
}

/// A text without the white space at its end.
pub open spec fn without_trailing_space(s: Seq<char>) -> Seq<char>
    decreases s.len(),
{
    if s.len() > 0 && whitespace(s.last()) {
        without_trailing_space(s.drop_last())
    } else {
        s
    }
}

/// A text without the white space around it. White space inside stays.
pub open spec fn trimmed(s: Seq<char>) -> Seq<char> {
    without_trailing_space(without_leading_space(s))
}

/// Whether every character of a text is white space.
pub open spec fn blank(s: Seq<char>) -> bool {
    forall|i: int| 0 <= i < s.len() ==> whitespace(#[trigger] s[i])
}

proof fn lemma_leading_blank(lead: Seq<char>, rest: Seq<char>)
    requires
        blank(lead),
    ensures
        without_leading_space(lead + rest) == without_leading_space(rest),
    decreases lead.len(),
{
    if lead.len() > 0 {
        assert((lead + rest).drop_first() =~= lead.drop_first() + rest);
        lemma_leading_blank(lead.drop_first(), rest);
    }
}

proof fn lemma_trailing_blank(rest: Seq<char>, trail: Seq<char>)
    requires
        blank(trail),
    ensures
        without_trailing_space(rest + trail) == without_trailing_space(rest),
    decreases trail.len(),
{
    if trail.len() > 0 {
        assert((rest + trail).drop_last() =~= rest + trail.drop_last());
        lemma_trailing_blank(rest, trail.drop_last());
    }
}

proof fn lemma_leading_space_before_blank(s: Seq<char>, trail: Seq<char>)
    requires
        blank(trail),
    ensures
        without_leading_space(s).len() > 0 ==> without_leading_space(s + trail)
            == without_leading_space(s) + trail,
        without_leading_space(s).len() == 0 ==> without_leading_space(s + trail).len() == 0,
    decreases s.len(),
{
    if s.len() > 0 {
        if whitespace(s.first()) {
            assert((s + trail).drop_first() =~= s.drop_first() + trail);
            lemma_leading_space_before_blank(s.drop_first(), trail);
        }
    } else {
        lemma_leading_blank(trail, Seq::empty());
    }
}

/// White space around a text does not show in what trimming leaves: a text
/// with blank padding before and after it is trimmed to the same as the text
/// alone.
pub proof fn trimming_ignores_padding(lead: Seq<char>, s: Seq<char>, trail: Seq<char>)
    requires
        blank(lead),
        blank(trail),
    ensures
        trimmed(lead + s + trail) == trimmed(s),
{
    assert(lead + s + trail =~= lead + (s + trail));
    lemma_leading_blank(lead, s + trail);
    lemma_leading_space_before_blank(s, trail);
    if without_leading_space(s).len() > 0 {
        lemma_trailing_blank(without_leading_space(s), trail);
    }
}

proof fn lemma_leading_space_start(s: Seq<char>)
    ensures
        without_leading_space(s).len() > 0 ==> !whitespace(without_leading_space(s).first()),
        without_leading_space(s).len() <= s.len(),
    decreases s.len(),
{
    if s.len() > 0 && whitespace(s.first()) {
        lemma_leading_space_start(s.drop_first());
    }
}

proof fn lemma_trailing_space_keeps_start(s: Seq<char>)
    ensures
        without_trailing_space(s).len() > 0 ==> !whitespace(without_trailing_space(s).last())
            && without_trailing_space(s).first() == s.first(),
    decreases s.len(),
{
    if s.len() > 0 && whitespace(s.last()) {
        lemma_trailing_space_keeps_start(s.drop_last());
    }
}

/// What trimming leaves neither starts nor ends with white space, so that
/// trimming it again changes nothing.
pub proof fn trimmed_text_has_no_padding(s: Seq<char>)
    ensures
        trimmed(s).len() > 0 ==> !whitespace(trimmed(s).first()) && !whitespace(trimmed(s).last()),
        trimmed(trimmed(s)) == trimmed(s),
{
    lemma_leading_space_start(s);
    lemma_trailing_space_keeps_start(without_leading_space(s));
}

/// Cuts the white space off both ends of `s`.
pub fn trim(s: &str) -> (r: &str)
    ensures
        r@ == trimmed(s@),
{
    let n = s.unicode_len();
    let mut start: usize = 0;
    assert(s@.subrange(0, n as int) == s@);
    while start < n && s.get_char(start).is_whitespace()
        invariant
            n == s@.len(),
            start <= n,
            without_leading_space(s@) == without_leading_space(s@.subrange(start as int, n as int)),
        decreases n - start,
    {
        assert(s@.subrange(start as int, n as int).drop_first() == s@.subrange(
            start as int + 1,
            n as int,
        ));
        start += 1;
    }
    let mut end: usize = n;
    while end > start && s.get_char(end - 1).is_whitespace()
        invariant
            n == s@.len(),
            start <= end <= n,
            trimmed(s@) == without_trailing_space(s@.subrange(start as int, end as int)),
        decreases end - start,
    {
        assert(s@.subrange(start as int, end as int).drop_last() == s@.subrange(
            start as int,
            end as int - 1,
        ));
        end -= 1;
    }
    s.substring_char(start, end)
}

/// Taking a prefix off a text, as `str::strip_prefix` does with a string
/// pattern: where `s` starts with `prefix`, the rest of `s` comes back; where it
/// does not, nothing does. Trusted, not proved.
#[verifier::external_body]
pub(crate) fn strip_prefix<'a>(s: &'a str, prefix: &str) -> (r: Option<&'a str>)
    ensures
        match r {
            Some(rest) => s@ == prefix@ + rest@,
            None => !prefix@.is_prefix_of(s@),
        },
{
    s.strip_prefix(prefix)
}

/// The digits in use, each at the place of its value.
pub const DIGITS: &'static str = "0123456789abcdef";

/// The digit that stands for `d`, for `d` below sixteen.
pub open spec fn digit(d: nat) -> char {
    DIGITS@[d as int]
}

/// The decimal numeral of `n`: most significant digit first, with no leading
/// zero and no sign; zero is a single `0`.
pub open spec fn decimal(n: nat) -> Seq<char>
    decreases n,
{
    if n < 10 {
        seq![digit(n)]
    } else {
        decimal(n / 10).push(digit(n % 10))
    }
}

/// The hexadecimal numeral of `n`, in lower case: most significant digit first,
/// with no leading zero and no prefix; zero is a single `0`.
pub open spec fn hexadecimal(n: nat) -> Seq<char>
    decreases n,
{
    if n < 16 {
        seq![digit(n)]
    } else {
        hexadecimal(n / 16).push(digit(n % 16))
    }
}

/// Writes `n` in decimal.
pub fn decimal_text(n: u64) -> (r: String)
    ensures
        r@ == decimal(n as nat),
    decreases n,
{
    proof {
        reveal_strlit("0123456789abcdef");
    }
    let c = DIGITS.get_char((n % 10) as usize);
    let mut out = if n < 10 {
        String::new()
    } else {
        decimal_text(n / 10)
    };
    out.push(c);
    out
}

/// Writes `n` in hexadecimal, in lower case and without a prefix.
pub fn hex_text(n: u32) -> (r: String)
    ensures
        r@ == hexadecimal(n as nat),
    decreases n,
{
    proof {
        reveal_strlit("0123456789abcdef");
    }
    let c = DIGITS.get_char((n % 16) as usize);
    let mut out = if n < 16 {
        String::new()
    } else {
        hex_text(n / 16)
    };
    out.push(c);
    out
}

} // verus!
