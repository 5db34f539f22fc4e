//! The record of one line under classification.

use crate::catalog::ActivePatternSet;
use crate::category::{Category, CATEGORY_COUNT};
use crate::extraction::{extract, extracted_value};
use crate::matcher::{captures, regex_captures};
use crate::text::is_white_space;
use vstd::prelude::*;
use vstd::string::StringExecFns;

verus! {

/// One line of input and what its classification found.
///
/// A line is juicy where an active pattern matched it. A juicy record names
/// the category of that pattern and holds the extracted value; any other
/// record holds neither.
#[derive(Debug, PartialEq, Eq)]
pub struct Data {
    /// The line as it was read.
    pub raw_line: String,
    /// Whether an active pattern matched the line.
    pub is_juicy: bool,
    /// The category of the pattern that matched.
    pub content_type: Option<Category>,
    /// The value that the pattern isolated, without white space.
    pub exact: Option<String>,
}

/// The value that the pattern of `category` in `active` extracts from
/// `text`, if the category has an active pattern and it finds one.
pub open spec fn finding(
    active: Map<Category, Seq<char>>,
    text: Seq<char>,
    category: Category,
) -> Option<Seq<char>> {
    if active.contains_key(category) {
        extracted_value(regex_captures(active[category], text))
    } else {
        None
    }
}

/// Whether `category` is the one reported for `text`: its pattern extracts a
/// value, and no pattern of a category before it in the priority order does.
pub open spec fn wins(active: Map<Category, Seq<char>>, text: Seq<char>, category: Category) -> bool {
    &&& finding(active, text, category) is Some
    &&& forall|d: Category|
        d.rank() < category.rank() ==> (#[trigger] finding(active, text, d)) is None
}

/// What classifying `text` against `active` reports: nothing for an empty
/// text and for one that no active pattern extracts a value from, else the
/// first category in priority order whose pattern extracts one, with that
/// value.
pub open spec fn classification(active: Map<Category, Seq<char>>, text: Seq<char>) -> Option<
    (Category, Seq<char>),
> {
    if text.len() > 0 && exists|c: Category| wins(active, text, c) {
        let c = choose|c: Category| wins(active, text, c);
        Some((c, finding(active, text, c)->0))
    } else {
        None
    }
}

/// At most one category wins.
pub proof fn lemma_winner_is_unique(
    active: Map<Category, Seq<char>>,
    text: Seq<char>,
    a: Category,
    b: Category,
)
    requires
        wins(active, text, a),
        wins(active, text, b),
    ensures
        a == b,
{
    if a.rank() < b.rank() {
        assert(finding(active, text, a) is None);
    } else if b.rank() < a.rank() {
        assert(finding(active, text, b) is None);
    }
}

impl Default for Data {
    /// A record that is not juicy, of the line `"0"`.
    fn default() -> (d: Data)
        ensures
            d.raw_line@ == "0"@,
            !d.is_juicy,
            d.content_type is None,
            d.exact is None,
    {
        Data { raw_line: "0".to_owned(), is_juicy: false, content_type: None, exact: None }
    }
}

impl Data {
    /// Whether the record is juicy exactly where it holds a category and a
    /// value.
    pub open spec fn wf(&self) -> bool {
        &&& self.is_juicy == self.content_type is Some
        &&& self.is_juicy == self.exact is Some
    }

    /// What the record reports: the category with the extracted value, or
    /// nothing.
    pub open spec fn outcome(&self) -> Option<(Category, Seq<char>)> {
        if self.is_juicy && self.content_type is Some && self.exact is Some {
            Some((self.content_type->0, self.exact->0@))
        } else {
            None
        }
    }

    /// The text that stands for the category in a message: its display name,
    /// or `"None"` where the record has none.
    pub open spec fn label(&self) -> Seq<char> {
        match self.content_type {
            Some(category) => category.name(),
            None => "None"@,
        }
    }

    /// The text that stands for the extracted value in a message: the value,
    /// or `"None"` where the record has none.
    pub open spec fn payload(&self) -> Seq<char> {
        match self.exact {
            Some(value) => value@,
            None => "None"@,
        }
    }

    /// The message that reports the whole line.
    pub open spec fn message(&self) -> Seq<char> {
        self.label() + ": "@ + self.raw_line@
    }

    /// The message that reports the extracted value alone.
    pub open spec fn exact_message(&self) -> Seq<char> {
        self.label() + ": "@ + self.payload()
    }

    /// A record of `raw_line` that is not classified yet.
    pub fn new(raw_line: String) -> (d: Data)
        ensures
            d.raw_line == raw_line,
            !d.is_juicy,
            d.content_type is None,
            d.exact is None,
            d.wf(),
    {
        Data { raw_line, is_juicy: false, content_type: None, exact: None }
    }

    /// Renders the record with the whole line: `<category>: <line>`.
    pub fn to_message(&self) -> (m: String)
        ensures
            m@ == self.message(),
    {
        let mut m = self.label_text().to_owned();
        m.append(": ");
        m.append(self.raw_line.as_str());
        m
    }

    /// Renders the record with the extracted value: `<category>: <value>`.
    pub fn to_exact_message(&self) -> (m: String)
        ensures
            m@ == self.exact_message(),
    {
        let mut m = self.label_text().to_owned();
        m.append(": ");
        match &self.exact {
            Some(value) => m.append(value.as_str()),
            None => m.append("None"),
        }
        m
    }

    /// The text that stands for the category in a message.
    pub fn label_text(&self) -> (s: &'static str)
        ensures
            s@ == self.label(),
    {
        match self.content_type {
            Some(category) => category.as_str(),
            None => "None",
        }
    }

    /// Classifies the line against `active`.
    ///
    /// The patterns are tried in the priority order of their categories, and
    /// the first that extracts a value decides: the record becomes juicy,
    /// with the category of that pattern and the value. Where none does, or
    /// the line is empty, the record stays as it was.
    pub fn set_content_type(&mut self, active: &ActivePatternSet)
        ensures
            final(self).raw_line == old(self).raw_line,
            old(self).wf() ==> final(self).wf(),
            match classification(active@, old(self).raw_line@) {
                Some((category, value)) => {
                    &&& final(self).is_juicy
                    &&& final(self).content_type == Some(category)
                    &&& final(self).exact.deep_view() == Some(value)
                    &&& forall|i: int| 0 <= i < value.len() ==> !is_white_space(value[i])
                },
                None => *final(self) == *old(self),
            },
    {
        if self.raw_line.as_str().is_empty() {
            return ;
        }
        let ghost text = self.raw_line@;
        let order = Category::list();
        let mut rank: usize = 0;
        while rank < order.len()
            invariant
                order@ == Category::all(),
                rank <= order@.len(),
                *self == *old(self),
                text == self.raw_line@,
                text.len() > 0,
                forall|c: Category|
                    c.rank() < rank ==> (#[trigger] finding(active@, text, c)) is None,
            decreases order@.len() - rank,
        {
            let category = order[rank];
            assert(category.rank() == rank);
            assert(forall|c: Category| c.rank() == rank ==> c == category);
            match active.get(category) {
                Some(pattern) => {
                    let found = captures(&pattern.matcher, self.raw_line.as_str());
                    match extract(&found) {
                        Some(value) => {
                            proof {
                                assert(wins(active@, text, category));
                                let winner = choose|c: Category| wins(active@, text, c);
                                lemma_winner_is_unique(active@, text, winner, category);
                            }
                            self.exact = Some(value);
                            self.content_type = Some(category);
                            self.is_juicy = true;
                            return ;
                        },
                        None => {},
                    }
                },
                None => {},
            }
            rank = rank + 1;
        }
        proof {
            assert forall|c: Category| !wins(active@, text, c) by {
                assert(c.rank() < CATEGORY_COUNT);
                assert(finding(active@, text, c) is None);
            }
        }
    }
}

/// Classifies `raw_line` against `active`, and hands out its record.
///
/// An empty line is never juicy. Any other line is juicy where an active
/// pattern extracts a value from it, and is then reported under the first
/// such category in priority order, with the value free of white space.
pub fn classify(active: &ActivePatternSet, raw_line: String) -> (d: Data)
    ensures
        d.raw_line == raw_line,
        d.wf(),
        d.outcome() == classification(active@, raw_line@),
        raw_line@.len() == 0 ==> !d.is_juicy,
        d.exact matches Some(value) ==> forall|i: int|
            0 <= i < value@.len() ==> !is_white_space(value@[i]),
{
    let mut d = Data::new(raw_line);
    d.set_content_type(active);
    d
}

/// The two messages of a record start alike, with the label and `": "`, and
/// what follows is the whole line in the one and the extracted value in the
/// other.
pub proof fn lemma_messages_share_prefix(d: Data)
    ensures
        ({
            let prefix = d.label() + ": "@;
            &&& d.message().subrange(0, prefix.len() as int) == prefix
            &&& d.exact_message().subrange(0, prefix.len() as int) == prefix
            &&& d.message().subrange(prefix.len() as int, d.message().len() as int)
                == d.raw_line@
            &&& d.exact_message().subrange(prefix.len() as int, d.exact_message().len() as int)
                == d.payload()
        }),
{
    let prefix = d.label() + ": "@;
    assert(d.message().subrange(0, prefix.len() as int) =~= prefix);
    assert(d.exact_message().subrange(0, prefix.len() as int) =~= prefix);
    assert(d.message().subrange(prefix.len() as int, d.message().len() as int) =~= d.raw_line@);
    assert(d.exact_message().subrange(prefix.len() as int, d.exact_message().len() as int)
        =~= d.payload());
}

} // verus!
