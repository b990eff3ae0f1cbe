//! Operations on texts.

use vstd::prelude::*;

verus! {

/// Whether `s` ends with `suffix`.
pub open spec fn ends_with(s: Seq<char>, suffix: Seq<char>) -> bool {
    suffix.len() <= s.len() && s.subrange(s.len() - suffix.len(), s.len() as int) == suffix
}

/// `s` without `suffix` at its end, where it ends with it; else `s`.
pub open spec fn without_suffix(s: Seq<char>, suffix: Seq<char>) -> Seq<char> {
    if ends_with(s, suffix) {
        s.subrange(0, s.len() - suffix.len())
    } else {
        s
    }
}

/// Whether `a` comes before `b` in the order of texts: character by character, by the
/// place of the characters in the code charts, a text before every text that it begins.
pub open spec fn precedes(a: Seq<char>, b: Seq<char>) -> bool
    decreases a.len(),
{
    if b.len() == 0 {
        false
    } else if a.len() == 0 {
        true
    } else if a[0] == b[0] {
        precedes(a.drop_first(), b.drop_first())
    } else {
        a[0] < b[0]
    }
}

/// No text comes before itself.
pub proof fn precedes_is_irreflexive(a: Seq<char>)
    ensures
        !precedes(a, a),
    decreases a.len(),
{
    if a.len() > 0 {
        precedes_is_irreflexive(a.drop_first());
    }
}

/// `str::lt`: whether `a` comes before `b` in the order of texts.
#[verifier::external_body]
pub(crate) fn str_lt(a: &str, b: &str) -> (r: bool)
    ensures
        r == precedes(a@, b@),
{
    a < b
}

/// `str::eq`: two texts are equal exactly where they hold the same characters.
#[verifier::external_body]
pub(crate) fn str_eq(a: &str, b: &str) -> (r: bool)
    ensures
        r == (a@ == b@),
{
    a == b
}

/// `str::strip_suffix`: the text before `suffix`, where `text` ends with it.
#[verifier::external_body]
pub(crate) fn strip_suffix<'a>(text: &'a str, suffix: &str) -> (r: Option<&'a str>)
    ensures
        match r {
            Some(rest) => ends_with(text@, suffix@) && rest@ == without_suffix(text@, suffix@),
            None => !ends_with(text@, suffix@),
        },
{
    text.strip_suffix(suffix)
}

/// `str::rsplit_once` at a character: the text before and the text after the last
/// occurrence of `delimiter`; none where `text` does not hold it.
#[verifier::external_body]
pub(crate) fn rsplit_once<'a>(text: &'a str, delimiter: char) -> (r: Option<(&'a str, &'a str)>)
    ensures
        match r {
            Some((before, after)) => text@ == before@ + seq![delimiter] + after@
                && !after@.contains(delimiter),
            None => !text@.contains(delimiter),
        },
{
    text.rsplit_once(delimiter)
}

} // verus!
