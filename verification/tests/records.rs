use datasurgeon::catalog::{select, PatternCatalog};
use datasurgeon::category::Category;
use datasurgeon::record::{classify, Data};

fn juicy(line: &str, category: Category, value: &str) -> Data {
    Data {
        raw_line: line.to_string(),
        is_juicy: true,
        content_type: Some(category),
        exact: Some(value.to_string()),
    }
}

#[test]
fn default_record() {
    let d = Data::default();
    assert_eq!(d.raw_line, "0");
    assert!(!d.is_juicy);
    assert_eq!(d.content_type, None);
    assert_eq!(d.exact, None);
}

#[test]
fn new_record_is_not_classified() {
    let d = Data::new("some line".to_string());
    assert_eq!(d.raw_line, "some line");
    assert!(!d.is_juicy);
    assert_eq!(d.content_type, None);
    assert_eq!(d.exact, None);
}

#[test]
fn messages_of_a_juicy_record() {
    let d = juicy("ip is 10.0.0.1 ok", Category::IpAddress, "10.0.0.1");
    assert_eq!(d.label_text(), "ip_address");
    assert_eq!(d.to_message(), "ip_address: ip is 10.0.0.1 ok");
    assert_eq!(d.to_exact_message(), "ip_address: 10.0.0.1");
}

#[test]
fn messages_without_a_category() {
    let d = Data::new("plain".to_string());
    assert_eq!(d.label_text(), "None");
    assert_eq!(d.to_message(), "None: plain");
    assert_eq!(d.to_exact_message(), "None: None");
    assert_eq!(Data::default().to_message(), "None: 0");
}

#[test]
fn messages_share_the_prefix() {
    for category in Category::list() {
        let d = juicy("the whole line", category, "value");
        let prefix = format!("{}: ", category.as_str());
        let raw = d.to_message();
        let clean = d.to_exact_message();
        assert_eq!(raw.strip_prefix(prefix.as_str()), Some("the whole line"));
        assert_eq!(clean.strip_prefix(prefix.as_str()), Some("value"));
    }
}

#[test]
fn set_content_type_fills_the_record() {
    let active = select(&PatternCatalog::builtin().unwrap(), &Vec::new());
    let mut d = Data::new("host 10.20.30.40 up".to_string());
    d.set_content_type(&active);
    assert_eq!(d, juicy("host 10.20.30.40 up", Category::IpAddress, "10.20.30.40"));
}

#[test]
fn set_content_type_leaves_an_unmatched_record() {
    let active = select(&PatternCatalog::builtin().unwrap(), &Vec::new());
    let mut d = Data::new("nothing here".to_string());
    d.set_content_type(&active);
    assert_eq!(d, Data::new("nothing here".to_string()));

    let mut e = Data::new(String::new());
    e.set_content_type(&active);
    assert_eq!(e, Data::new(String::new()));

    let mut kept = juicy("nothing here", Category::Url, "earlier");
    kept.set_content_type(&active);
    assert_eq!(kept, juicy("nothing here", Category::Url, "earlier"));
}

#[test]
fn classify_keeps_the_line() {
    let active = select(&PatternCatalog::builtin().unwrap(), &Vec::new());
    for line in ["", " ", "  padded admin@example.com  ", "plain"] {
        assert_eq!(classify(&active, line.to_string()).raw_line, line);
    }
    let d = classify(&active, "  padded admin@example.com  ".to_string());
    assert_eq!(d.to_message(), "email:   padded admin@example.com  ");
    assert_eq!(d.to_exact_message(), "email: admin@example.com");
}
