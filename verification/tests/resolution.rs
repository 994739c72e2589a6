//! Parsing and resolving URLs.

use feedfinder::youtube::{nth_path_segment, segment_at};
use feedfinder::{FeedFinderError, Url};

#[test]
fn parse_keeps_the_serialization_of_the_parsed_url() {
    let url = Url::parse("HTTP://Example.COM").unwrap();
    assert_eq!(url.as_str(), "http://example.com/");
}

#[test]
fn parse_refuses_a_relative_reference() {
    assert_eq!(
        Url::parse("/feed.rss"),
        Err(FeedFinderError::Url(url::ParseError::RelativeUrlWithoutBase))
    );
}

#[test]
fn parse_refuses_an_empty_host() {
    assert_eq!(Url::parse("http://"), Err(FeedFinderError::Url(url::ParseError::EmptyHost)));
}

#[test]
fn join_resolves_a_root_relative_reference() {
    let base = Url::parse("http://example.com/").unwrap();
    assert_eq!(base.join("/feed.rss").unwrap().as_str(), "http://example.com/feed.rss");
}

#[test]
fn join_resolves_a_reference_relative_to_the_directory() {
    let base = Url::parse("http://example.com/").unwrap();
    assert_eq!(base.join("./rss").unwrap().as_str(), "http://example.com/rss");
    let page = Url::parse("http://example.com/blog/post.html").unwrap();
    assert_eq!(page.join("feed.xml").unwrap().as_str(), "http://example.com/blog/feed.xml");
}

#[test]
fn join_takes_an_absolute_reference_as_it_is() {
    let base = Url::parse("http://example.com/blog/").unwrap();
    assert_eq!(
        base.join("https://other.example.org/atom.xml").unwrap().as_str(),
        "https://other.example.org/atom.xml"
    );
}

#[test]
fn join_reports_what_does_not_resolve() {
    let base = Url::parse("http://example.com/").unwrap();
    assert_eq!(base.join("http://"), Err(FeedFinderError::Url(url::ParseError::EmptyHost)));
}

#[test]
fn a_clone_is_equal_to_the_url_it_was_made_from() {
    let url = Url::parse("http://example.com/a?b=c").unwrap();
    assert_eq!(url.clone(), url);
}

#[test]
fn path_segments_are_counted_from_zero() {
    let url = Url::parse("https://www.youtube.com/channel/UCxxxx").unwrap();
    assert_eq!(nth_path_segment(&url, 0), Some("channel".to_string()));
    assert_eq!(nth_path_segment(&url, 1), Some("UCxxxx".to_string()));
    assert_eq!(nth_path_segment(&url, 2), None);
}

#[test]
fn a_path_that_ends_in_a_slash_has_an_empty_last_segment() {
    let url = Url::parse("http://example.com/blog/").unwrap();
    assert_eq!(nth_path_segment(&url, 0), Some("blog".to_string()));
    assert_eq!(nth_path_segment(&url, 1), Some(String::new()));
    assert_eq!(nth_path_segment(&url, 2), None);
}

#[test]
fn a_url_that_cannot_be_a_base_has_no_path_segments() {
    let url = Url::parse("mailto:someone@example.com").unwrap();
    assert_eq!(nth_path_segment(&url, 0), None);
}

#[test]
fn segment_at_picks_by_position() {
    let segments = Some(vec!["a".to_string(), "b".to_string()]);
    assert_eq!(segment_at(&segments, 0), Some("a".to_string()));
    assert_eq!(segment_at(&segments, 1), Some("b".to_string()));
    assert_eq!(segment_at(&segments, 2), None);
    assert_eq!(segment_at(&None, 0), None);
}
