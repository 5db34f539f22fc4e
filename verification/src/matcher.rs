//! Compiled expressions. The regular-expression engine is the `regex` crate;
//! what this module states of it is believed, not proved.

use vstd::prelude::*;

verus! {

/// `regex::Regex`, a compiled expression: carried through, never looked into.
#[verifier::external_type_specification]
#[verifier::external_body]
pub struct ExRegex(regex::Regex);

/// `regex::Error`, why an expression did not compile: carried through, never
/// looked into.
#[verifier::external_type_specification]
#[verifier::external_body]
pub struct ExRegexError(regex::Error);

/// Whether the engine accepts `expression`: it is well formed and compiles
/// within the engine's default size limit.
pub uninterp spec fn regex_compiles(expression: Seq<char>) -> bool;

/// What the leftmost match of `expression` in `text` captures: `None` where
/// the expression matches nowhere, else one entry for each capture group, in
/// the order of the opening parentheses, the whole match at index 0. An entry
/// is the text the group matched, or `None` where the group took no part in
/// the match.
pub uninterp spec fn regex_captures(expression: Seq<char>, text: Seq<char>) -> Option<
    Seq<Option<Seq<char>>>,
>;

/// An expression, compiled. Its view is the text it was compiled from.
///
/// Only [`compile`] and [`duplicate`] make a matcher, so that the engine and
/// the text it stands for never part.
pub struct Matcher {
    engine: regex::Regex,
    source: Ghost<Seq<char>>,
}

impl View for Matcher {
    type V = Seq<char>;

    closed spec fn view(&self) -> Seq<char> {
        self.source@
    }
}

/// `Regex::new`: compiles `expression`. The contract names the outcome
/// [`regex_compiles`], and says that the matcher stands for the text it was
/// given.
#[verifier::external_body]
pub(crate) fn compile(expression: &str) -> (r: Result<Matcher, regex::Error>)
    ensures
        r is Ok <==> regex_compiles(expression@),
        r matches Ok(m) ==> m@ == expression@,
{
    match regex::Regex::new(expression) {
        Ok(engine) => Ok(Matcher { engine, source: Ghost(expression@) }),
        Err(e) => Err(e),
    }
}

/// `Regex::as_str`: the text the expression was compiled from.
#[verifier::external_body]
pub(crate) fn source_text(m: &Matcher) -> (s: &str)
    ensures
        s@ == m@,
{
    m.engine.as_str()
}

/// `Clone::clone` of `Regex`: a second handle on the same compiled
/// expression.
#[verifier::external_body]
pub(crate) fn duplicate(m: &Matcher) -> (r: Matcher)
    ensures
        r@ == m@,
{
    Matcher { engine: m.engine.clone(), source: Ghost(m@) }
}

/// `Regex::captures`: searches `text` for the leftmost match and hands out
/// the text of every capture group. The contract names the outcome
/// [`regex_captures`].
#[verifier::external_body]
pub(crate) fn captures(m: &Matcher, text: &str) -> (groups: Option<Vec<Option<String>>>)
    ensures
        groups.deep_view() == regex_captures(m@, text@),
{
    match m.engine.captures(text) {
        Some(found) => Some(found.iter().map(|g| g.map(|span| span.as_str().to_owned())).collect()),
        None => None,
    }
}

} // verus!
