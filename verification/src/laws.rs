//! What holds of selection and classification together.

use crate::catalog::selection;
use crate::category::{Category, CATEGORY_COUNT};
use crate::record::{classification, finding, lemma_winner_is_unique, wins};
use vstd::prelude::*;

verus! {

/// Among the categories before position `k` of the priority order, either
/// one wins or none has a finding.
proof fn lemma_winner_or_nothing_before(active: Map<Category, Seq<char>>, text: Seq<char>, k: int)
    requires
        0 <= k <= CATEGORY_COUNT,
    ensures
        (exists|c: Category| c.rank() < k && wins(active, text, c)) || (forall|c: Category|
            c.rank() < k ==> (#[trigger] finding(active, text, c)) is None),
    decreases k,
{
    if k > 0 {
        lemma_winner_or_nothing_before(active, text, k - 1);
        let last = Category::all()[k - 1];
        assert(last.rank() == k - 1);
        assert(forall|c: Category| c.rank() == k - 1 ==> c == last);
        if exists|c: Category| c.rank() < k - 1 && wins(active, text, c) {
            let w = choose|c: Category| c.rank() < k - 1 && wins(active, text, c);
            assert(w.rank() < k && wins(active, text, w));
        } else if finding(active, text, last) is Some {
            assert(wins(active, text, last));
            assert(last.rank() < k && wins(active, text, last));
        } else {
            assert forall|c: Category| c.rank() < k implies (#[trigger] finding(
                active,
                text,
                c,
            )) is None by {
                if c.rank() == k - 1 {
                    assert(c == last);
                }
            }
        }
    }
}

/// What is reported is what the winning category found, and a category wins
/// exactly where it is the one reported.
pub proof fn lemma_classification_is_winner(
    active: Map<Category, Seq<char>>,
    text: Seq<char>,
    category: Category,
)
    requires
        text.len() > 0,
    ensures
        wins(active, text, category) <==> (classification(active, text) matches Some((c, _))
            && c == category),
        wins(active, text, category) ==> classification(active, text) == Some(
            (category, finding(active, text, category)->0),
        ),
{
    if wins(active, text, category) {
        let chosen = choose|c: Category| wins(active, text, c);
        lemma_winner_is_unique(active, text, chosen, category);
    }
}

/// A line that is not empty is reported under no category exactly where no
/// active pattern extracts a value from it.
pub proof fn lemma_not_juicy_iff_no_finding(active: Map<Category, Seq<char>>, text: Seq<char>)
    requires
        text.len() > 0,
    ensures
        classification(active, text) is None <==> forall|c: Category|
            (#[trigger] finding(active, text, c)) is None,
{
    lemma_winner_or_nothing_before(active, text, CATEGORY_COUNT as int);
    if classification(active, text) is None {
        assert forall|c: Category| (#[trigger] finding(active, text, c)) is None by {
            assert(c.rank() < CATEGORY_COUNT);
        }
    }
}

/// No line is reported under a category for which no active pattern extracts
/// a value from it; an empty line is reported under none.
pub proof fn lemma_no_finding_is_not_juicy(active: Map<Category, Seq<char>>, text: Seq<char>)
    ensures
        text.len() == 0 ==> classification(active, text) is None,
        (forall|c: Category| (#[trigger] finding(active, text, c)) is None) ==> classification(
            active,
            text,
        ) is None,
{
}

/// Once categories are asked for by name, a line is only ever reported under
/// a category that was named.
pub proof fn lemma_reported_category_was_requested(
    catalog: Map<Category, Seq<char>>,
    requested: Seq<Seq<char>>,
    text: Seq<char>,
)
    requires
        requested.len() > 0,
    ensures
        classification(selection(catalog, requested), text) matches Some((category, _))
            ==> requested.contains(category.name()) && catalog.contains_key(category),
{
}

/// With no category asked for, every pattern of the catalog is active.
pub proof fn lemma_empty_request_selects_all(catalog: Map<Category, Seq<char>>)
    ensures
        selection(catalog, Seq::<Seq<char>>::empty()) == catalog,
{
}

/// Asking again for the same categories changes nothing.
pub proof fn lemma_selection_is_idempotent(
    catalog: Map<Category, Seq<char>>,
    requested: Seq<Seq<char>>,
)
    ensures
        selection(selection(catalog, requested), requested) == selection(catalog, requested),
{
    assert(selection(selection(catalog, requested), requested) =~= selection(catalog, requested));
}

} // verus!
