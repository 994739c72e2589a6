//! The detection as a whole.

use feedfinder::detect::settles;
use feedfinder::page::MAX_DOCUMENT_CHARS;
use feedfinder::{detect_feeds, FeedFinder, FeedFinderError, FeedType, Url};

#[test]
fn a_page_without_any_sign_of_a_feed_has_none() {
    let base = Url::parse("http://example.com/").unwrap();
    assert_eq!(detect_feeds(&base, ""), Ok(vec![]));
    assert_eq!(detect_feeds(&base, "<html><head></head><body>First post!</body></html>"), Ok(vec![]));
    assert_eq!(detect_feeds(&base, "<p>not <b>closed"), Ok(vec![]));
}

#[test]
fn two_detections_on_one_page_agree() {
    let base = Url::parse("http://example.com/blog/post/").unwrap();
    let pages = [
        r#"<html><head><link rel="alternate" type="application/rss+xml" href="/feed.rss"></head></html>"#,
        r#"<html><body><a href="/feed/">RSS</a><a href="atom.xml">Atom</a></body></html>"#,
        r#"<html><head><meta name="generator" content="Hugo 0.27.1" /></head></html>"#,
        r#"<html><body><a href="http://[feed">broken</a></body></html>"#,
        "<html></html>",
    ];
    for html in pages.iter() {
        assert_eq!(detect_feeds(&base, html), detect_feeds(&base, html));
    }
}

#[test]
fn the_strategies_are_tried_in_their_order() {
    let base = Url::parse("https://www.youtube.com/channel/UCxxxx").unwrap();
    let all = r#"<html><head><meta name="generator" content="Hugo"><link rel="alternate" type="application/json" href="/feed.json"></head><body><a href="/feed/">feed</a></body></html>"#;
    let no_link = r#"<html><head><meta name="generator" content="Hugo"></head><body><a href="/feed/">feed</a></body></html>"#;
    let finder = FeedFinder::new(&base, all);
    assert_eq!(detect_feeds(&base, all), finder.meta_links());
    let finder = FeedFinder::new(&base, no_link);
    assert_eq!(finder.meta_links(), Ok(vec![]));
    assert_eq!(detect_feeds(&base, no_link), finder.youtube());

    let base = Url::parse("https://example.com/channel/UCxxxx").unwrap();
    let finder = FeedFinder::new(&base, no_link);
    assert_eq!(finder.youtube(), Ok(vec![]));
    assert_eq!(detect_feeds(&base, no_link), finder.body_links());
    let no_anchor = r#"<html><head><meta name="generator" content="Hugo"></head><body></body></html>"#;
    let finder = FeedFinder::new(&base, no_anchor);
    assert_eq!(finder.body_links(), Ok(vec![]));
    assert_eq!(detect_feeds(&base, no_anchor), finder.guess());
    assert_eq!(finder.guess().unwrap().len(), 3);
}

#[test]
fn an_outcome_settles_the_detection_unless_it_is_empty() {
    let base = Url::parse("http://example.com/").unwrap();
    let found = detect_feeds(&base, r#"<a href="/feed">feed</a>"#);
    assert_eq!(found.as_ref().unwrap()[0].feed_type(), &FeedType::Link);
    assert!(settles(&found));
    assert!(settles(&Err(FeedFinderError::Select)));
    assert!(settles(&Err(FeedFinderError::Url(url::ParseError::EmptyHost))));
    assert!(!settles(&Ok(vec![])));
}

#[test]
fn the_parts_of_a_finder_are_those_it_was_made_of() {
    let base = Url::parse("http://example.com/").unwrap();
    let finder = FeedFinder::new(&base, "<html></html>");
    assert_eq!(finder.base_url(), &base);
    assert_eq!(finder.html(), "<html></html>");
}

#[test]
fn the_longest_document_is_a_twelfth_of_what_a_u32_counts() {
    assert_eq!(MAX_DOCUMENT_CHARS, 357_913_941);
    assert_eq!(MAX_DOCUMENT_CHARS as u64, u32::MAX as u64 / 12);
}
