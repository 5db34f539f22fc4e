//! Normalisation of extracted values.

use vstd::prelude::*;

verus! {

/// Whether `c` is a white-space character.
pub uninterp spec fn is_white_space(c: char) -> bool;

/// `char::is_whitespace` of the standard library: tells whether the character
/// has the Unicode property `White_Space`. The contract only gives the answer
/// the name [`is_white_space`].
pub assume_specification[ char::is_whitespace ](c: char) -> (b: bool)
    ensures
        b == is_white_space(c),
;

/// `String::push` of the standard library: appends one character to the end
/// of the string.
pub assume_specification[ String::push ](s: &mut String, c: char)
    ensures
        final(s)@ == old(s)@.push(c),
;

/// `PartialEq::eq` of `str` in the standard library: two string slices are
/// equal where they hold the same characters.
pub assume_specification[ <str as PartialEq>::eq ](a: &str, b: &str) -> (r: bool)
    ensures
        r == (a@ == b@),
;

/// `text` without its white-space characters, the others in their order.
pub open spec fn without_whitespace(text: Seq<char>) -> Seq<char> {
    text.filter(|c: char| !is_white_space(c))
}

/// What is left of a text without its white space holds no white space.
pub proof fn lemma_without_whitespace_is_clean(text: Seq<char>)
    ensures
        forall|i: int|
            0 <= i < without_whitespace(text).len() ==> !is_white_space(
                #[trigger] without_whitespace(text)[i],
            ),
{
    let keep = |c: char| !is_white_space(c);
    assert forall|i: int| 0 <= i < without_whitespace(text).len() implies !is_white_space(
        #[trigger] without_whitespace(text)[i],
    ) by {
        text.lemma_filter_pred(keep, i);
    }
}

/// Removes every white-space character from `text`.
pub fn strip_whitespace(text: &str) -> (out: String)
    ensures
        out@ == without_whitespace(text@),
        forall|i: int| 0 <= i < out@.len() ==> !is_white_space(#[trigger] out@[i]),
{
    let mut out = String::new();
    proof {
        reveal(Seq::filter);
    }
    for c in it: text.chars()
        invariant
            it.seq() == text@,
            out@ == without_whitespace(text@.take(it.index())),
    {
        proof {
            let keep = |c: char| !is_white_space(c);
            text@.take(it.index()).lemma_filter_push(c, keep);
            assert(text@.take(it.index()).push(c) =~= text@.take(it.index() + 1));
        }
        if !c.is_whitespace() {
            out.push(c);
        }
    }
    proof {
        assert(text@.take(text@.len() as int) =~= text@);
        lemma_without_whitespace_is_clean(text@);
    }
    out
}

} // verus!
