use htmlfeed::entry::RawEntry;
use htmlfeed::entry::build_entry;
use htmlfeed::entry::derive_entry_id;
use htmlfeed::entry::normalize_link;

fn raw(title: &str) -> RawEntry {
    RawEntry {
        title: title.to_owned(),
        link: None,
        author: None,
        summary: None,
        updated: None,
        published: None,
    }
}

#[test]
fn absolute_link_passes_through() {
    assert_eq!(normalize_link("http://b.com/y", "http://a.com"), "http://b.com/y");
}

#[test]
fn slash_relative_link_gets_base_prefix() {
    assert_eq!(normalize_link("/x", "http://a.com"), "http://a.com/x");
}

#[test]
fn dot_relative_link_gets_base_prefix() {
    assert_eq!(normalize_link("./x", "http://a.com"), "http://a.com./x");
}

#[test]
fn bare_relative_link_gets_base_and_slash() {
    assert_eq!(normalize_link("x", "http://a.com"), "http://a.com/x");
}

#[test]
fn empty_link_gets_base_and_slash() {
    assert_eq!(normalize_link("", "http://a.com"), "http://a.com/");
}

#[test]
fn id_is_deterministic() {
    let l = Some(String::from("http://a.com/x"));
    assert_eq!(derive_entry_id("T", &l), derive_entry_id("T", &l));
    assert_eq!(derive_entry_id("T", &None), derive_entry_id("T", &None));
}

#[test]
fn id_changes_with_title_or_link() {
    let l = Some(String::from("http://a.com/x"));
    let l2 = Some(String::from("http://a.com/y"));
    assert_ne!(derive_entry_id("T", &l), derive_entry_id("U", &l));
    assert_ne!(derive_entry_id("T", &l), derive_entry_id("T", &l2));
    assert_ne!(derive_entry_id("T", &l), derive_entry_id("T", &None));
}

#[test]
fn id_is_the_urn_of_the_seed() {
    let expected = uuid::Uuid::new_v5(&uuid::Uuid::NAMESPACE_URL, "T[]".as_bytes())
        .urn()
        .to_string();
    assert_eq!(derive_entry_id("T", &None), expected);
    let with_link = uuid::Uuid::new_v5(
        &uuid::Uuid::NAMESPACE_URL,
        "T[Link { href: \"http://a.com/x\" }]".as_bytes(),
    )
    .urn()
    .to_string();
    assert_eq!(derive_entry_id("T", &Some(String::from("http://a.com/x"))), with_link);
}

#[test]
fn id_has_urn_shape() {
    let id = derive_entry_id("Hello", &None);
    assert_eq!(id.len(), 45);
    assert!(id.starts_with("urn:uuid:"));
}

#[test]
fn unconfigured_fields_default_as_specified() {
    let e = build_entry(raw("T"), "http://a.com");
    assert_eq!(e.title, "T");
    assert!(e.links.is_empty());
    assert!(e.authors.is_empty());
    assert_eq!(e.summary, None);
    assert_eq!(e.updated, "");
    assert_eq!(e.published, None);
    assert_eq!(e.id.len(), 45);
}

#[test]
fn configured_fields_carry_over() {
    let e = build_entry(
        RawEntry {
            title: "T".to_owned(),
            link: Some("/x".to_owned()),
            author: Some("An Author".to_owned()),
            summary: Some("S".to_owned()),
            updated: Some("2020-01-01".to_owned()),
            published: Some("2019-01-01".to_owned()),
        },
        "http://a.com",
    );
    assert_eq!(e.links.len(), 1);
    assert_eq!(e.links[0].href, "http://a.com/x");
    assert_eq!(e.authors.len(), 1);
    assert_eq!(e.authors[0].name, "An Author");
    assert_eq!(e.summary.as_deref(), Some("S"));
    assert_eq!(e.updated, "2020-01-01");
    assert_eq!(e.published.as_deref(), Some("2019-01-01"));
}
