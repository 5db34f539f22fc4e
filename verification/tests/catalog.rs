use datasurgeon::catalog::{builtin_text, select, CatalogError, Pattern, PatternCatalog};
use datasurgeon::category::Category;
use datasurgeon::record::classify;

fn requested_names(list: &[&str]) -> Vec<String> {
    list.iter().map(|s| s.to_string()).collect()
}

fn builtin() -> PatternCatalog {
    PatternCatalog::builtin().expect("the built-in expressions compile")
}

#[test]
fn builtin_catalog_has_every_category() {
    let catalog = builtin();
    for category in Category::list() {
        let pattern = catalog.get(category).expect("one pattern for each category");
        assert_eq!(pattern.category, category);
        assert_eq!(pattern.expression(), builtin_text(category));
        assert!(!pattern.expression().is_empty());
    }
}

#[test]
fn empty_request_selects_the_whole_catalog() {
    let catalog = builtin();
    let active = select(&catalog, &Vec::new());
    for category in Category::list() {
        let kept = active.get(category).expect("every pattern stays");
        assert_eq!(kept.category, category);
        assert_eq!(kept.expression(), catalog.get(category).unwrap().expression());
    }
}

#[test]
fn request_keeps_exactly_the_named_categories() {
    let catalog = builtin();
    let active = select(&catalog, &requested_names(&["url", "hashes", "url"]));
    for category in Category::list() {
        let wanted = category == Category::Url || category == Category::Hashes;
        assert_eq!(active.get(category).is_some(), wanted);
    }
    assert_eq!(active.get(Category::Url).unwrap().expression(), builtin_text(Category::Url));
}

#[test]
fn unknown_names_select_nothing() {
    let catalog = builtin();
    let active = select(&catalog, &requested_names(&["bogus", "Email", ""]));
    for category in Category::list() {
        assert!(active.get(category).is_none());
    }
    assert!(!classify(&active, "admin@example.com".to_string()).is_juicy);

    let mixed = select(&catalog, &requested_names(&["bogus", "email"]));
    for category in Category::list() {
        assert_eq!(mixed.get(category).is_some(), category == Category::Email);
    }
}

#[test]
fn a_new_catalog_is_empty() {
    let catalog = PatternCatalog::new();
    for category in Category::list() {
        assert!(catalog.get(category).is_none());
    }
    let active = select(&catalog, &Vec::new());
    assert!(!classify(&active, "admin@example.com".to_string()).is_juicy);
}

#[test]
fn insert_files_a_pattern_under_its_category() {
    let mut catalog = PatternCatalog::new();
    assert_eq!(catalog.insert(Category::Files, r"(\w+\.rs)"), Ok(()));
    assert_eq!(catalog.get(Category::Files).unwrap().expression(), r"(\w+\.rs)");
    assert!(catalog.get(Category::Email).is_none());

    assert_eq!(catalog.insert(Category::Files, r"(\w+\.toml)"), Ok(()));
    assert_eq!(catalog.get(Category::Files).unwrap().expression(), r"(\w+\.toml)");

    let d = classify(&select(&catalog, &Vec::new()), "see Cargo.toml and main.rs".to_string());
    assert_eq!(d.content_type, Some(Category::Files));
    assert_eq!(d.exact, Some("Cargo.toml".to_string()));
}

#[test]
fn malformed_expression_is_refused() {
    let mut catalog = PatternCatalog::new();
    catalog.insert(Category::Email, "(a)").unwrap();
    assert_eq!(
        catalog.insert(Category::Email, "(unclosed"),
        Err(CatalogError::Malformed(Category::Email))
    );
    assert_eq!(catalog.get(Category::Email).unwrap().expression(), "(a)");
    assert_eq!(
        catalog.insert(Category::Hashes, r"(?=ahead)(x)"),
        Err(CatalogError::Malformed(Category::Hashes))
    );
    assert!(catalog.get(Category::Hashes).is_none());
    assert!(matches!(
        Pattern::new(Category::Url, "[z-a]"),
        Err(CatalogError::Malformed(Category::Url))
    ));
}

#[test]
fn pattern_keeps_its_expression() {
    let pattern = Pattern::new(Category::IpAddress, r"(\d+)").ok().unwrap();
    assert_eq!(pattern.category, Category::IpAddress);
    assert_eq!(pattern.expression(), r"(\d+)");
    let twin = pattern.duplicate();
    assert_eq!(twin.category, Category::IpAddress);
    assert_eq!(twin.expression(), r"(\d+)");
}

#[test]
fn empty_expression_is_dropped_by_a_request() {
    let mut catalog = PatternCatalog::new();
    catalog.insert(Category::Email, "").unwrap();
    catalog.insert(Category::Url, "(http)").unwrap();

    let all = select(&catalog, &Vec::new());
    assert_eq!(all.get(Category::Email).unwrap().expression(), "");
    assert!(all.get(Category::Url).is_some());

    let some = select(&catalog, &requested_names(&["email", "url"]));
    assert!(some.get(Category::Email).is_none());
    assert!(some.get(Category::Url).is_some());
}

#[test]
fn pattern_without_a_group_reports_nothing() {
    let mut catalog = PatternCatalog::new();
    catalog.insert(Category::Email, "admin").unwrap();
    catalog.insert(Category::Url, "(x)|admin").unwrap();
    catalog.insert(Category::Hashes, "ad(min)").unwrap();
    let d = classify(&select(&catalog, &Vec::new()), "the admin".to_string());
    assert_eq!(d.content_type, Some(Category::Hashes));
    assert_eq!(d.exact, Some("min".to_string()));
}

#[test]
fn reported_category_is_always_a_requested_one() {
    let catalog = builtin();
    let lines = [
        "contact us at admin@example.com today",
        "4111 1111 1111 1111",
        "00:1A:2B:3C:4D:5E d41d8cd98f00b204e9800998ecf8427e",
        "Server IN SRV 10 5 389 dc01.example.local",
        "see https://example.com/report.pdf from 10.0.0.7",
        "john.smith@corp.local",
        "nothing here",
        "",
    ];
    let all = Category::list();
    for a in &all {
        for b in &all {
            let request = requested_names(&[a.as_str(), b.as_str()]);
            let active = select(&catalog, &request);
            for line in lines {
                let d = classify(&active, line.to_string());
                if let Some(found) = d.content_type {
                    assert!(found == *a || found == *b, "{} under {:?}", line, found);
                }
            }
        }
    }
}

#[test]
fn juicy_exactly_where_a_pattern_extracts() {
    let catalog = builtin();
    let active = select(&catalog, &Vec::new());
    let lines = [
        "contact us at admin@example.com today",
        "4111 1111 1111 1111",
        "4111 1111 1111",
        "d41d8cd98f00b204e9800998ecf8427e",
        "d41d8cd98f00b204e9800998ecf8427",
        "ftp://host/path",
        "999.999.999.999",
        "plain words only",
        "x",
        "a.b",
        "report.pdf",
    ];
    for line in lines {
        let expected = Category::list().into_iter().find(|c| {
            regex::Regex::new(builtin_text(*c))
                .unwrap()
                .captures(line)
                .and_then(|caps| caps.get(1))
                .is_some()
        });
        let d = classify(&active, line.to_string());
        assert_eq!(d.is_juicy, expected.is_some(), "{}", line);
        assert_eq!(d.content_type, expected, "{}", line);
    }
}

#[test]
fn extracted_values_hold_no_white_space() {
    let catalog = builtin();
    let cases = [
        (Category::CreditCard, "card  4111 1111 1111 1111  ok"),
        (Category::Email, "  to:   admin@example.com  "),
        (Category::DomainUsers, "john.smith@corp.local  "),
        (Category::Url, "\tsee http://example.com/a\tnow"),
        (Category::IpAddress, "  10.1.2.3  "),
        (Category::Ipv6Address, " 2001:db8:0:0:0:0:2:1 "),
        (Category::SrvDns, "my  service\tname   IN   SRV  1  2  3   host "),
        (Category::MacAddress, " 00:1a:2b:3c:4d:5e "),
        (Category::Files, "my annual report.pdf"),
        (Category::Hashes, "  d41d8cd98f00b204e9800998ecf8427e  "),
    ];
    for (category, line) in cases {
        let active = select(&catalog, &requested_names(&[category.as_str()]));
        let d = classify(&active, line.to_string());
        assert_eq!(d.content_type, Some(category), "{}", line);
        let value = d.exact.expect("a juicy record holds a value");
        assert!(!value.is_empty());
        assert!(!value.chars().any(char::is_whitespace), "{:?}", value);
    }
    let files = select(&catalog, &requested_names(&["files"]));
    let d = classify(&files, "my annual report.pdf".to_string());
    assert_eq!(d.exact, Some("myannualreport.pdf".to_string()));
    let srv = select(&catalog, &requested_names(&["srv_dns"]));
    let d = classify(&srv, "my  service IN SRV 1 2 3 host".to_string());
    assert_eq!(d.exact, Some("myservice".to_string()));
}
