//! The closed set of categories a line can be reported under.

use vstd::prelude::*;

verus! {

/// A class of sensitive or structurally interesting data.
///
/// The variants are declared in priority order: where a line matches the
/// patterns of several categories, the one declared first is reported.
#[derive(Clone, Copy, Debug, PartialEq, Eq, Hash, Structural)]
pub enum Category {
    CreditCard,
    Email,
    DomainUsers,
    Url,
    IpAddress,
    Ipv6Address,
    SrvDns,
    MacAddress,
    Files,
    Hashes,
}

/// Number of categories.
pub const CATEGORY_COUNT: usize = 10;

impl Category {
    /// The display name of the category, as it prefixes a reported line.
    pub open spec fn name(self) -> Seq<char> {
        match self {
            Category::CreditCard => "credit_card"@,
            Category::Email => "email"@,
            Category::DomainUsers => "domain_users"@,
            Category::Url => "url"@,
            Category::IpAddress => "ip_address"@,
            Category::Ipv6Address => "ipv6_address"@,
            Category::SrvDns => "srv_dns"@,
            Category::MacAddress => "mac_address"@,
            Category::Files => "files"@,
            Category::Hashes => "hashes"@,
        }
    }

    /// Position of the category in the priority order, starting at 0.
    pub open spec fn rank(self) -> int {
        match self {
            Category::CreditCard => 0,
            Category::Email => 1,
            Category::DomainUsers => 2,
            Category::Url => 3,
            Category::IpAddress => 4,
            Category::Ipv6Address => 5,
            Category::SrvDns => 6,
            Category::MacAddress => 7,
            Category::Files => 8,
            Category::Hashes => 9,
        }
    }

    /// Every category, in priority order.
    pub open spec fn all() -> Seq<Category> {
        seq![
            Category::CreditCard,
            Category::Email,
            Category::DomainUsers,
            Category::Url,
            Category::IpAddress,
            Category::Ipv6Address,
            Category::SrvDns,
            Category::MacAddress,
            Category::Files,
            Category::Hashes,
        ]
    }

    /// The category that carries the given display name, if there is one.
    pub open spec fn parse(name: Seq<char>) -> Option<Category> {
        if exists|c: Category| c.name() == name {
            Some(choose|c: Category| c.name() == name)
        } else {
            None
        }
    }

    /// The display name of the category.
    pub fn as_str(self) -> (s: &'static str)
        ensures
            s@ == self.name(),
    {
        match self {
            Category::CreditCard => "credit_card",
            Category::Email => "email",
            Category::DomainUsers => "domain_users",
            Category::Url => "url",
            Category::IpAddress => "ip_address",
            Category::Ipv6Address => "ipv6_address",
            Category::SrvDns => "srv_dns",
            Category::MacAddress => "mac_address",
            Category::Files => "files",
            Category::Hashes => "hashes",
        }
    }

    /// Position of the category in the priority order.
    pub fn index(self) -> (i: usize)
        ensures
            i == self.rank(),
            i < CATEGORY_COUNT,
    {
        match self {
            Category::CreditCard => 0,
            Category::Email => 1,
            Category::DomainUsers => 2,
            Category::Url => 3,
            Category::IpAddress => 4,
            Category::Ipv6Address => 5,
            Category::SrvDns => 6,
            Category::MacAddress => 7,
            Category::Files => 8,
            Category::Hashes => 9,
        }
    }

    /// The category that carries the display name `name`, if there is one.
    pub fn from_name(name: &str) -> (c: Option<Category>)
        ensures
            c == Category::parse(name@),
    {
        let all = Category::list();
        let mut i: usize = 0;
        while i < all.len()
            invariant
                all@ == Category::all(),
                i <= all@.len(),
                forall|c: Category| c.rank() < i ==> c.name() != name@,
            decreases all@.len() - i,
        {
            let candidate = all[i];
            assert(candidate.rank() == i);
            assert(forall|c: Category| c.rank() == i ==> c == candidate);
            if name.eq(candidate.as_str()) {
                proof {
                    let chosen = choose|c: Category| c.name() == name@;
                    lemma_names_distinct(chosen, candidate);
                }
                return Some(candidate);
            }
            i = i + 1;
        }
        assert forall|c: Category| c.name() != name@ by {
            assert(c.rank() < CATEGORY_COUNT);
        }
        None
    }

    /// Every category, in priority order.
    pub fn list() -> (v: Vec<Category>)
        ensures
            v@ == Category::all(),
    {
        let mut v: Vec<Category> = Vec::new();
        v.push(Category::CreditCard);
        v.push(Category::Email);
        v.push(Category::DomainUsers);
        v.push(Category::Url);
        v.push(Category::IpAddress);
        v.push(Category::Ipv6Address);
        v.push(Category::SrvDns);
        v.push(Category::MacAddress);
        v.push(Category::Files);
        v.push(Category::Hashes);
        assert(v@ =~= Category::all());
        v
    }
}

/// Reveals the characters of every display name.
pub proof fn lemma_names_revealed()
    ensures
        "credit_card"@ == seq!['c', 'r', 'e', 'd', 'i', 't', '_', 'c', 'a', 'r', 'd'],
        "email"@ == seq!['e', 'm', 'a', 'i', 'l'],
        "domain_users"@ == seq!['d', 'o', 'm', 'a', 'i', 'n', '_', 'u', 's', 'e', 'r', 's'],
        "url"@ == seq!['u', 'r', 'l'],
        "ip_address"@ == seq!['i', 'p', '_', 'a', 'd', 'd', 'r', 'e', 's', 's'],
        "ipv6_address"@ == seq!['i', 'p', 'v', '6', '_', 'a', 'd', 'd', 'r', 'e', 's', 's'],
        "srv_dns"@ == seq!['s', 'r', 'v', '_', 'd', 'n', 's'],
        "mac_address"@ == seq!['m', 'a', 'c', '_', 'a', 'd', 'd', 'r', 'e', 's', 's'],
        "files"@ == seq!['f', 'i', 'l', 'e', 's'],
        "hashes"@ == seq!['h', 'a', 's', 'h', 'e', 's'],
{
    reveal_strlit("credit_card");
    reveal_strlit("email");
    reveal_strlit("domain_users");
    reveal_strlit("url");
    reveal_strlit("ip_address");
    reveal_strlit("ipv6_address");
    reveal_strlit("srv_dns");
    reveal_strlit("mac_address");
    reveal_strlit("files");
    reveal_strlit("hashes");
    assert("credit_card"@ =~= seq!['c', 'r', 'e', 'd', 'i', 't', '_', 'c', 'a', 'r', 'd']);
    assert("email"@ =~= seq!['e', 'm', 'a', 'i', 'l']);
    assert("domain_users"@ =~= seq!['d', 'o', 'm', 'a', 'i', 'n', '_', 'u', 's', 'e', 'r', 's']);
    assert("url"@ =~= seq!['u', 'r', 'l']);
    assert("ip_address"@ =~= seq!['i', 'p', '_', 'a', 'd', 'd', 'r', 'e', 's', 's']);
    assert("ipv6_address"@ =~= seq!['i', 'p', 'v', '6', '_', 'a', 'd', 'd', 'r', 'e', 's', 's']);
    assert("srv_dns"@ =~= seq!['s', 'r', 'v', '_', 'd', 'n', 's']);
    assert("mac_address"@ =~= seq!['m', 'a', 'c', '_', 'a', 'd', 'd', 'r', 'e', 's', 's']);
    assert("files"@ =~= seq!['f', 'i', 'l', 'e', 's']);
    assert("hashes"@ =~= seq!['h', 'a', 's', 'h', 'e', 's']);
}

/// Two categories with the same display name are the same category.
pub proof fn lemma_names_distinct(a: Category, b: Category)
    requires
        a.name() == b.name(),
    ensures
        a == b,
{
    lemma_names_revealed();
    assert(a.name().len() == b.name().len());
    assert(a.name()[0] == b.name()[0]);
    assert(a.name()[2] == b.name()[2]);
}

/// A display name reads back as the category it belongs to.
pub proof fn lemma_parse_name(category: Category)
    ensures
        Category::parse(category.name()) == Some(category),
{
    let chosen = choose|c: Category| c.name() == category.name();
    lemma_names_distinct(chosen, category);
}

/// Every category stands in the priority order, at the position of its rank.
pub proof fn lemma_rank_is_position(category: Category)
    ensures
        0 <= category.rank() < CATEGORY_COUNT,
        Category::all().len() == CATEGORY_COUNT,
        Category::all()[category.rank()] == category,
{
}

} // verus!
