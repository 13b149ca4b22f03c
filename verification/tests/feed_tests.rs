use htmlfeed::config::ServiceMap;
use htmlfeed::errors::FeedError;
use htmlfeed::errors::ResolveFailKind;
use htmlfeed::feed::FeedConfig;
use htmlfeed::feed::feed_for_document;
use htmlfeed::selector::CssSelector;
use htmlfeed::selector::SelectorEx;

fn basic_config() -> FeedConfig {
    FeedConfig {
        title: "T".to_owned(),
        subtitle: None,
        link: "http://a.com".to_owned(),
        entries: CssSelector::parse(".item").unwrap(),
        entry_title: SelectorEx::parse(".t").unwrap(),
        entry_link: None,
        entry_author: None,
        entry_summary: None,
        entry_updated: None,
        entry_published: None,
    }
}

#[test]
fn one_item_document_gives_one_entry() {
    let cfg = basic_config();
    let doc = "<div class=\"item\"><span class=\"t\">Hello</span></div>";
    let feed = feed_for_document(&cfg, "svc", doc).unwrap();
    assert_eq!(feed.title, "T");
    assert_eq!(feed.entries.len(), 1);
    assert_eq!(feed.entries[0].title, "Hello");
    assert!(feed.entries[0].links.is_empty());
    assert_eq!(feed.entries[0].updated, "");
    assert_eq!(feed.entries[0].id.len(), 45);
    assert_eq!(feed.links.len(), 1);
    assert_eq!(feed.links[0].href, "http://a.com");
    let expected_id = uuid::Uuid::new_v5(&uuid::Uuid::NAMESPACE_URL, "svc".as_bytes())
        .urn()
        .to_string();
    assert_eq!(feed.id, expected_id);
}

#[test]
fn entry_ids_are_stable_across_assemblies() {
    let cfg = basic_config();
    let doc = "<div class=\"item\"><span class=\"t\">Hello</span></div>";
    let a = feed_for_document(&cfg, "svc", doc).unwrap();
    let b = feed_for_document(&cfg, "svc", doc).unwrap();
    assert_eq!(a.entries[0].id, b.entries[0].id);
}

#[test]
fn zero_matches_is_empty_result_failure() {
    let cfg = basic_config();
    let doc = "<div class=\"other\"><span class=\"t\">Hello</span></div>";
    match feed_for_document(&cfg, "svc", doc) {
        Err(e) => {
            assert_eq!(e, FeedError::EmptyResult);
            assert_eq!(e.message(), "entries selector matched nothing");
        },
        other => panic!("expected the empty-result failure, got {:?}", other),
    }
}

#[test]
fn missing_attribute_fails_naming_the_selector() {
    let mut cfg = basic_config();
    cfg.entry_link = Some(SelectorEx::parse(".l|href").unwrap());
    let doc = "<div class=\"item\"><span class=\"t\">x</span><span class=\"l\">y</span></div>";
    match feed_for_document(&cfg, "svc", doc) {
        Err(FeedError::Resolve(e)) => {
            assert_eq!(e.selector, ".l");
            assert_eq!(e.attr.as_deref(), Some("href"));
            assert_eq!(e.kind, ResolveFailKind::NoAttr);
            assert_eq!(e.message(), "selector: .l|href");
            assert_eq!(FeedError::Resolve(e).message(), "selector: .l|href");
        },
        other => panic!("expected a resolution failure, got {:?}", other),
    }
}

#[test]
fn missing_title_fails_naming_the_selector() {
    let cfg = basic_config();
    let doc = "<div class=\"item\"><span class=\"u\">x</span></div>";
    match feed_for_document(&cfg, "svc", doc) {
        Err(FeedError::Resolve(e)) => {
            assert_eq!(e.selector, ".t");
            assert_eq!(e.attr, None);
            assert_eq!(e.kind, ResolveFailKind::NoMatch);
            assert_eq!(e.message(), "selector: .t");
        },
        other => panic!("expected a resolution failure, got {:?}", other),
    }
}

#[test]
fn relative_entry_link_is_resolved_against_base() {
    let mut cfg = basic_config();
    cfg.entry_link = Some(SelectorEx::parse(".l|href").unwrap());
    let doc = "<div class=\"item\"><span class=\"t\">x</span><a class=\"l\" href=\"/x\">go</a></div>";
    let feed = feed_for_document(&cfg, "svc", doc).unwrap();
    assert_eq!(feed.entries[0].links.len(), 1);
    assert_eq!(feed.entries[0].links[0].href, "http://a.com/x");
}

#[test]
fn text_content_is_concatenated_in_document_order() {
    let cfg = basic_config();
    let doc = "<div class=\"item\"><span class=\"t\">He<b>ll</b>o</span></div>";
    let feed = feed_for_document(&cfg, "svc", doc).unwrap();
    assert_eq!(feed.entries[0].title, "Hello");
}

#[test]
fn first_match_in_document_order_wins() {
    let cfg = basic_config();
    let doc = "<div class=\"item\"><span class=\"t\">first</span><span class=\"t\">second</span></div>";
    let feed = feed_for_document(&cfg, "svc", doc).unwrap();
    assert_eq!(feed.entries[0].title, "first");
}

#[test]
fn every_fragment_becomes_an_entry() {
    let cfg = basic_config();
    let doc = "<div class=\"item\"><span class=\"t\">a</span></div>\
               <div class=\"item\"><span class=\"t\">b</span></div>";
    let feed = feed_for_document(&cfg, "svc", doc).unwrap();
    assert_eq!(feed.entries.len(), 2);
    assert_eq!(feed.entries[0].title, "a");
    assert_eq!(feed.entries[1].title, "b");
}

#[test]
fn subtitle_carries_over() {
    let mut cfg = basic_config();
    cfg.subtitle = Some("S".to_owned());
    let doc = "<div class=\"item\"><span class=\"t\">Hello</span></div>";
    let feed = feed_for_document(&cfg, "svc", doc).unwrap();
    assert_eq!(feed.subtitle.as_deref(), Some("S"));
}

#[test]
fn optional_entry_fields_resolve_when_configured() {
    let mut cfg = basic_config();
    cfg.entry_author = Some(SelectorEx::parse(".a").unwrap());
    cfg.entry_updated = Some(SelectorEx::parse(".u").unwrap());
    cfg.entry_summary = Some(SelectorEx::parse(".s").unwrap());
    let doc = "<div class=\"item\"><span class=\"t\">x</span><span class=\"a\">Me</span>\
               <span class=\"u\">2020-01-01</span><span class=\"s\">sum</span></div>";
    let feed = feed_for_document(&cfg, "svc", doc).unwrap();
    let e = &feed.entries[0];
    assert_eq!(e.authors.len(), 1);
    assert_eq!(e.authors[0].name, "Me");
    assert_eq!(e.updated, "2020-01-01");
    assert_eq!(e.summary.as_deref(), Some("sum"));
    assert_eq!(e.published, None);
}

#[test]
fn configured_but_unmatched_selector_is_fatal_not_defaulted() {
    let mut cfg = basic_config();
    cfg.entry_summary = Some(SelectorEx::parse(".s").unwrap());
    let doc = "<div class=\"item\"><span class=\"t\">x</span></div>";
    match feed_for_document(&cfg, "svc", doc) {
        Err(FeedError::Resolve(e)) => {
            assert_eq!(e.selector, ".s");
            assert_eq!(e.kind, ResolveFailKind::NoMatch);
        },
        other => panic!("expected a resolution failure, got {:?}", other),
    }
}

#[test]
fn unknown_service_id_is_not_found() {
    let map = ServiceMap::new(vec![(String::from("svc"), basic_config())]).unwrap();
    assert!(map.lookup(&String::from("other")).is_none());
    let cfg = map.lookup(&String::from("svc")).unwrap();
    assert_eq!(cfg.title, "T");
}

#[test]
fn assemble_with_zero_fragments_is_empty_result() {
    let cfg = basic_config();
    match htmlfeed::feed::assemble(&cfg, "svc", Vec::new(), "now".to_owned()) {
        Err(FeedError::EmptyResult) => (),
        other => panic!("expected the empty-result failure, got {:?}", other),
    }
}

#[test]
fn select_takes_text_or_attribute() {
    let html = scraper::Html::parse_document(
        "<div><a class=\"l\" href=\"/x\">go <b>now</b></a></div>",
    );
    let root = html.root_element();
    let by_text = SelectorEx::parse(".l").unwrap();
    assert_eq!(htmlfeed::extract::select(&root, &by_text).unwrap(), "go now");
    let by_attr = SelectorEx::parse(".l|href").unwrap();
    assert_eq!(htmlfeed::extract::select(&root, &by_attr).unwrap(), "/x");
    let missing = SelectorEx::parse(".m").unwrap();
    let e = htmlfeed::extract::select(&root, &missing).unwrap_err();
    assert_eq!(e.selector, ".m");
    assert_eq!(e.kind, ResolveFailKind::NoMatch);
}

#[test]
fn duplicate_service_ids_are_refused() {
    let services = vec![
        (String::from("svc"), basic_config()),
        (String::from("svc"), basic_config()),
    ];
    assert!(ServiceMap::new(services).is_none());
}
