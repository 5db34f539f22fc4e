//! The catalog of extraction patterns, and the selection of the patterns
//! that take part in a run.
//!
//! A catalog maps categories to compiled expressions. It is walked in the
//! priority order of the categories, so that the outcome of a classification
//! never depends on the order in which patterns were added.

use crate::category::{Category, CATEGORY_COUNT};
use crate::matcher::{compile, duplicate, regex_compiles, source_text, Matcher};
use vstd::prelude::*;

verus! {

/// Why a catalog could not be built.
#[derive(Clone, Copy, Debug, PartialEq, Eq, Structural)]
pub enum CatalogError {
    /// The expression given for this category does not compile.
    Malformed(Category),
}

/// A compiled expression under the category it reports.
///
/// The first capture group of the expression isolates the value to report;
/// what else the expression matches is context.
pub struct Pattern {
    pub category: Category,
    pub matcher: Matcher,
}

/// The expression that the built-in catalog holds for `category`.
pub open spec fn builtin_expression(category: Category) -> Seq<char> {
    match category {
        Category::CreditCard => r"\b(\d{4}[- ]?\d{4}[- ]?\d{4}[- ]?\d{1,4})\b"@,
        Category::Email => r"\b([A-Za-z0-9._%+-]+@[A-Za-z0-9.-]+\.[A-Za-z]{2,4})\b"@,
        Category::DomainUsers => r"^([a-zA-Z]+\.[a-zA-Z]+|[a-zA-Z]+)[\w-]*\b@[a-zA-Z0-9]{1,15}\.(?:local|network|lan)"@,
        Category::Url => r"((?:https?|ftp)://[^\s/$.?#].[^\s]*)"@,
        Category::IpAddress => r"\b((?:\d{1,3}\.){3}\d{1,3})\b"@,
        Category::Ipv6Address => r"([0-9a-fA-F]{1,4}(:[0-9a-fA-F]{1,4}){7})"@,
        Category::SrvDns => r"\b(.+?)\s+IN\s+SRV\s+\d+\s+\d+\s+\d+\s+(.+)\b"@,
        Category::MacAddress => r"([0-9a-fA-F]{2}(:[0-9a-fA-F]{2}){5})"@,
        Category::Files => r"([\w,\s-]+\.(txt|pdf|doc|docx|xls|xlsx|xml|jpg|jpeg|png|gif|bmp|csv|json|yaml|log|tar|tgz|gz|zip|rar|7z|exe|dll|bat|ps1|sh|py|rb|js|mdb|sql|db|dbf|ini|cfg|conf|bak|old|backup|pgp|gpg|aes|sys|drv|ocx|pcap|tcpdump))"@,
        Category::Hashes => r"\b([0-9a-fA-F]{32}|[0-9a-fA-F]{40}|[0-9a-fA-F]{56}|[0-9a-fA-F]{64}|[0-9a-fA-F]{96}|[0-9a-fA-F]{128}|[0-9a-fA-F]{224}|[0-9a-fA-F]{256}|[0-9a-fA-F]{384}|[0-9a-fA-F]{512}|[a-fA-F0-9*]{16}|[a-fA-F0-9*]{40}|[a-fA-F0-9*]{64}|[a-fA-F0-9*]{96}|[a-fA-F0-9*]{128})\b"@,
    }
}

/// The expression that the built-in catalog holds for `category`.
pub fn builtin_text(category: Category) -> (s: &'static str)
    ensures
        s@ == builtin_expression(category),
{
    match category {
        Category::CreditCard => r"\b(\d{4}[- ]?\d{4}[- ]?\d{4}[- ]?\d{1,4})\b",
        Category::Email => r"\b([A-Za-z0-9._%+-]+@[A-Za-z0-9.-]+\.[A-Za-z]{2,4})\b",
        Category::DomainUsers => r"^([a-zA-Z]+\.[a-zA-Z]+|[a-zA-Z]+)[\w-]*\b@[a-zA-Z0-9]{1,15}\.(?:local|network|lan)",
        Category::Url => r"((?:https?|ftp)://[^\s/$.?#].[^\s]*)",
        Category::IpAddress => r"\b((?:\d{1,3}\.){3}\d{1,3})\b",
        Category::Ipv6Address => r"([0-9a-fA-F]{1,4}(:[0-9a-fA-F]{1,4}){7})",
        Category::SrvDns => r"\b(.+?)\s+IN\s+SRV\s+\d+\s+\d+\s+\d+\s+(.+)\b",
        Category::MacAddress => r"([0-9a-fA-F]{2}(:[0-9a-fA-F]{2}){5})",
        Category::Files => r"([\w,\s-]+\.(txt|pdf|doc|docx|xls|xlsx|xml|jpg|jpeg|png|gif|bmp|csv|json|yaml|log|tar|tgz|gz|zip|rar|7z|exe|dll|bat|ps1|sh|py|rb|js|mdb|sql|db|dbf|ini|cfg|conf|bak|old|backup|pgp|gpg|aes|sys|drv|ocx|pcap|tcpdump))",
        Category::Hashes => r"\b([0-9a-fA-F]{32}|[0-9a-fA-F]{40}|[0-9a-fA-F]{56}|[0-9a-fA-F]{64}|[0-9a-fA-F]{96}|[0-9a-fA-F]{128}|[0-9a-fA-F]{224}|[0-9a-fA-F]{256}|[0-9a-fA-F]{384}|[0-9a-fA-F]{512}|[a-fA-F0-9*]{16}|[a-fA-F0-9*]{40}|[a-fA-F0-9*]{64}|[a-fA-F0-9*]{96}|[a-fA-F0-9*]{128})\b",
    }
}

impl Pattern {
    /// Compiles `expression` as the pattern of `category`.
    pub fn new(category: Category, expression: &str) -> (r: Result<Pattern, CatalogError>)
        ensures
            r is Ok <==> regex_compiles(expression@),
            r matches Ok(p) ==> p.category == category && p.matcher@ == expression@,
            r matches Err(e) ==> e == CatalogError::Malformed(category),
    {
        match compile(expression) {
            Ok(matcher) => Ok(Pattern { category, matcher }),
            Err(_) => Err(CatalogError::Malformed(category)),
        }
    }

    /// The text the expression was compiled from.
    pub fn expression(&self) -> (s: &str)
        ensures
            s@ == self.matcher@,
    {
        source_text(&self.matcher)
    }

    /// A second handle on the same pattern.
    pub fn duplicate(&self) -> (p: Pattern)
        ensures
            p.category == self.category,
            p.matcher@ == self.matcher@,
    {
        Pattern { category: self.category, matcher: duplicate(&self.matcher) }
    }
}

/// Whether `slots` has one slot for each category, each pattern in the slot
/// of its own category.
spec fn slots_wf(slots: Seq<Option<Pattern>>) -> bool {
    &&& slots.len() == CATEGORY_COUNT
    &&& forall|i: int|
        0 <= i < slots.len() ==> (#[trigger] slots[i] matches Some(p) ==> p.category.rank() == i)
}

/// The mapping that `slots` stands for: from each category whose slot is
/// filled to the text of its expression.
spec fn slots_view(slots: Seq<Option<Pattern>>) -> Map<Category, Seq<char>> {
    Map::new(
        |c: Category| slots[c.rank()] is Some,
        |c: Category| slots[c.rank()]->0.matcher@,
    )
}

/// A mapping from categories to patterns, at most one pattern for a category.
pub struct PatternCatalog {
    slots: Vec<Option<Pattern>>,
}

impl View for PatternCatalog {
    type V = Map<Category, Seq<char>>;

    closed spec fn view(&self) -> Map<Category, Seq<char>> {
        slots_view(self.slots@)
    }
}

/// The mapping of the built-in catalog: every category, with its built-in
/// expression.
pub open spec fn builtin_patterns() -> Map<Category, Seq<char>> {
    Map::new(|c: Category| true, |c: Category| builtin_expression(c))
}

impl PatternCatalog {
    /// The invariant of the representation.
    #[verifier::type_invariant]
    spec fn wf(&self) -> bool {
        slots_wf(self.slots@)
    }

    /// A catalog without patterns.
    pub fn new() -> (catalog: PatternCatalog)
        ensures
            catalog@ == Map::<Category, Seq<char>>::empty(),
    {
        let mut slots: Vec<Option<Pattern>> = Vec::new();
        let mut i: usize = 0;
        while i < CATEGORY_COUNT
            invariant
                i <= CATEGORY_COUNT,
                slots@.len() == i,
                forall|j: int| 0 <= j < i ==> slots@[j] is None,
            decreases CATEGORY_COUNT - i,
        {
            slots.push(None);
            i = i + 1;
        }
        let catalog = PatternCatalog { slots };
        assert(catalog@ =~= Map::<Category, Seq<char>>::empty());
        catalog
    }

    /// Compiles `expression` and files it under `category`, in place of the
    /// pattern that the category had, if it had one. Where the expression
    /// does not compile, the catalog stays as it was.
    pub fn insert(&mut self, category: Category, expression: &str) -> (r: Result<
        (),
        CatalogError,
    >)
        ensures
            r is Ok <==> regex_compiles(expression@),
            r is Ok ==> final(self)@ == old(self)@.insert(category, expression@),
            r matches Err(e) ==> e == CatalogError::Malformed(category) && final(self)@ == old(
                self,
            )@,
    {
        match Pattern::new(category, expression) {
            Ok(pattern) => {
                // The slots are moved out, changed and put back, so that the
                // catalog is whole at every step.
                let mut taken = PatternCatalog::new();
                std::mem::swap(self, &mut taken);
                proof {
                    use_type_invariant(&taken);
                }
                let mut slots = taken.slots;
                slots.set(category.index(), Some(pattern));
                *self = PatternCatalog { slots };
                assert(self@ =~= old(self)@.insert(category, expression@));
                Ok(())
            },
            Err(e) => Err(e),
        }
    }

    /// The built-in catalog: one pattern for each category.
    ///
    /// Fails where a built-in expression does not compile, and names the
    /// first such category in priority order.
    pub fn builtin() -> (r: Result<PatternCatalog, CatalogError>)
        ensures
            r is Ok <==> forall|c: Category| regex_compiles(#[trigger] builtin_expression(c)),
            r matches Ok(catalog) ==> catalog@ == builtin_patterns(),
            r matches Err(e) ==> e matches CatalogError::Malformed(c) && !regex_compiles(
                builtin_expression(c),
            ) && forall|d: Category|
                d.rank() < c.rank() ==> regex_compiles(#[trigger] builtin_expression(d)),
    {
        let order = Category::list();
        let mut catalog = PatternCatalog::new();
        let mut i: usize = 0;
        while i < order.len()
            invariant
                order@ == Category::all(),
                i <= order@.len(),
                catalog@ == Map::new(
                    |c: Category| c.rank() < i,
                    |c: Category| builtin_expression(c),
                ),
                forall|c: Category|
                    c.rank() < i ==> regex_compiles(#[trigger] builtin_expression(c)),
            decreases order@.len() - i,
        {
            let category = order[i];
            assert(category.rank() == i);
            match catalog.insert(category, builtin_text(category)) {
                Ok(()) => {},
                Err(e) => {
                    return Err(e);
                },
            }
            assert(catalog@ =~= Map::new(
                |c: Category| c.rank() < i + 1,
                |c: Category| builtin_expression(c),
            ));
            i = i + 1;
        }
        assert(catalog@ =~= builtin_patterns());
        Ok(catalog)
    }

    /// The pattern filed under `category`, if there is one.
    pub fn get(&self, category: Category) -> (r: Option<&Pattern>)
        ensures
            r is Some <==> self@.contains_key(category),
            r matches Some(p) ==> p.category == category && p.matcher@ == self@[category],
    {
        proof {
            use_type_invariant(self);
        }
        self.slots[category.index()].as_ref()
    }
}

/// The patterns that take part in a run.
pub struct ActivePatternSet {
    slots: Vec<Option<Pattern>>,
}

impl View for ActivePatternSet {
    type V = Map<Category, Seq<char>>;

    closed spec fn view(&self) -> Map<Category, Seq<char>> {
        slots_view(self.slots@)
    }
}

/// The patterns of `catalog` that a request for the categories named in
/// `requested` leaves active.
///
/// An empty request asks for everything. Otherwise a pattern stays where its
/// category is named and its expression is not empty; a name that belongs to
/// no category of the catalog asks for nothing.
pub open spec fn selection(catalog: Map<Category, Seq<char>>, requested: Seq<Seq<char>>) -> Map<
    Category,
    Seq<char>,
> {
    if requested.len() == 0 {
        catalog
    } else {
        Map::new(
            |c: Category|
                catalog.contains_key(c) && requested.contains(c.name()) && catalog[c].len() > 0,
            |c: Category| catalog[c],
        )
    }
}

/// Tells whether `requested` names `category`.
pub fn is_requested(requested: &Vec<String>, category: Category) -> (b: bool)
    ensures
        b == requested.deep_view().contains(category.name()),
{
    let name = category.as_str();
    let mut i: usize = 0;
    while i < requested.len()
        invariant
            i <= requested@.len(),
            name@ == category.name(),
            forall|j: int| 0 <= j < i ==> requested.deep_view()[j] != category.name(),
        decreases requested@.len() - i,
    {
        assert(requested.deep_view()[i as int] == requested@[i as int]@);
        if requested[i].as_str().eq(name) {
            return true;
        }
        i = i + 1;
    }
    false
}

impl ActivePatternSet {
    /// The invariant of the representation.
    #[verifier::type_invariant]
    spec fn wf(&self) -> bool {
        slots_wf(self.slots@)
    }

    /// The active pattern of `category`, if there is one.
    pub fn get(&self, category: Category) -> (r: Option<&Pattern>)
        ensures
            r is Some <==> self@.contains_key(category),
            r matches Some(p) ==> p.category == category && p.matcher@ == self@[category],
    {
        proof {
            use_type_invariant(self);
        }
        self.slots[category.index()].as_ref()
    }
}

/// Narrows `catalog` to the patterns that a request for the categories named
/// in `requested` leaves active.
pub fn select(catalog: &PatternCatalog, requested: &Vec<String>) -> (active: ActivePatternSet)
    ensures
        active@ == selection(catalog@, requested.deep_view()),
        requested@.len() == 0 ==> active@ == catalog@,
{
    proof {
        use_type_invariant(catalog);
    }
    let everything = requested.len() == 0;
    let mut slots: Vec<Option<Pattern>> = Vec::new();
    let mut i: usize = 0;
    while i < CATEGORY_COUNT
        invariant
            slots_wf(catalog.slots@),
            everything == (requested@.len() == 0),
            i <= CATEGORY_COUNT,
            slots@.len() == i,
            forall|j: int|
                0 <= j < i ==> (#[trigger] slots@[j] matches Some(p) ==> p.category.rank() == j),
            forall|c: Category|
                #![trigger c.rank()]
                c.rank() < i ==> {
                    &&& slots@[c.rank()] is Some <==> selection(
                        catalog@,
                        requested.deep_view(),
                    ).contains_key(c)
                    &&& slots@[c.rank()] matches Some(p) ==> p.matcher@ == catalog@[c]
                },
        decreases CATEGORY_COUNT - i,
    {
        let ghost category = Category::all()[i as int];
        assert(category.rank() == i);
        assert(forall|c: Category| c.rank() == i ==> c == category);
        let kept = match &catalog.slots[i] {
            Some(pattern) => {
                if everything || (is_requested(requested, pattern.category)
                    && !pattern.expression().is_empty()) {
                    Some(pattern.duplicate())
                } else {
                    None
                }
            },
            None => None,
        };
        slots.push(kept);
        i = i + 1;
    }
    let active = ActivePatternSet { slots };
    assert(active@ =~= selection(catalog@, requested.deep_view()));
    active
}

} // verus!
