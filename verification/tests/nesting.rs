//! How deeply a document is nested, and what that means for the guesses.

use feedfinder::page::Edge::{End, Start};
use feedfinder::page::{deepest_of, nesting, text_of, MAX_DOCUMENT_DEPTH};
use feedfinder::{detect_feeds, FeedFinder, FeedFinderError, FeedType, Url};

fn nested(levels: usize, inside: &str) -> String {
    format!("<html><body>{}{}{}</body></html>", "<div>".repeat(levels), inside, "</div>".repeat(levels))
}

#[test]
fn the_deepest_nesting_is_the_most_nodes_open_at_once() {
    assert_eq!(deepest_of(&vec![]), 0);
    assert_eq!(deepest_of(&vec![Start, End]), 1);
    assert_eq!(deepest_of(&vec![Start, Start, End, Start, End, End]), 2);
    assert_eq!(deepest_of(&vec![Start, Start, Start, End, End, Start, Start, Start, End]), 4);
    assert_eq!(deepest_of(&vec![Start, End, Start, End, Start, End]), 1);
}

#[test]
fn an_end_with_nothing_open_counts_for_nothing() {
    assert_eq!(deepest_of(&vec![End, End, End]), 0);
    assert_eq!(deepest_of(&vec![End, End, Start, Start, End]), 2);
    assert_eq!(deepest_of(&vec![Start, End, End, Start]), 1);
}

#[test]
fn the_document_and_its_text_count_as_levels() {
    assert_eq!(nesting(""), 3);
    assert_eq!(nesting("<html><head></head><body></body></html>"), 3);
    assert_eq!(nesting("<p>text</p>"), 5);
    assert_eq!(nesting(&nested(1, "")), 4);
    assert_eq!(nesting(&nested(10, "")), 13);
    assert_eq!(nesting(&nested(10, "text")), 14);
}

#[test]
fn the_deepest_document_that_is_written_out_has_512_levels() {
    assert_eq!(MAX_DOCUMENT_DEPTH, 512);
    let deepest = nested(509, "");
    assert_eq!(nesting(&deepest), 512);
    assert!(text_of(&deepest).unwrap().contains("<div></div>"));
    let too_deep = nested(510, "");
    assert_eq!(nesting(&too_deep), 513);
    assert_eq!(text_of(&too_deep), None);
}

#[test]
fn the_text_of_a_document_is_that_of_its_parsed_form() {
    assert_eq!(
        text_of("<p>Made with &#72;ugo").unwrap(),
        "<html><head></head><body><p>Made with Hugo</p></body></html>"
    );
}

#[test]
fn a_document_nested_too_deeply_cannot_be_searched_for_a_signature() {
    let base = Url::parse("http://example.com/").unwrap();
    let html = nested(600, "made with hugo");
    assert_eq!(FeedFinder::new(&base, &html).guess(), Err(FeedFinderError::Select));
    assert_eq!(detect_feeds(&base, &html), Err(FeedFinderError::Select));
}

#[test]
fn a_document_nested_very_deeply_does_not_end_the_process() {
    let base = Url::parse("http://example.com/").unwrap();
    let html = "<div>".repeat(3_000);
    assert_eq!(nesting(&html), 3_003);
    assert_eq!(detect_feeds(&base, &html), Err(FeedFinderError::Select));
}

#[test]
fn a_deep_document_within_the_bound_is_searched() {
    let base = Url::parse("http://example.com/").unwrap();
    let html = nested(400, "made with hugo");
    let feeds = detect_feeds(&base, &html).unwrap();
    assert_eq!(feeds.len(), 1);
    assert_eq!(feeds[0].url().as_str(), "http://example.com/index.xml");
    assert_eq!(feeds[0].feed_type(), &FeedType::Guess);
}

#[test]
fn the_earlier_strategies_do_not_mind_the_nesting() {
    let base = Url::parse("http://example.com/").unwrap();
    let html = nested(600, r#"<a href="/feed">feed</a>"#);
    let feeds = detect_feeds(&base, &html).unwrap();
    assert_eq!(feeds.len(), 1);
    assert_eq!(feeds[0].url().as_str(), "http://example.com/feed");
    assert_eq!(feeds[0].feed_type(), &FeedType::Link);
}
