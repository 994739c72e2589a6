//! The YouTube strategy.

use feedfinder::youtube::{address_of, list_of, name_of, shape_of, value_of, YoutubePage};
use feedfinder::{detect_feeds, Feed, FeedFinder, FeedFinderError, FeedType, Url};

fn listed(outcome: Result<Vec<Feed>, FeedFinderError>) -> Vec<(String, FeedType)> {
    let feeds = outcome.unwrap();
    feeds.iter().map(|feed| (feed.url().as_str().to_string(), *feed.feed_type())).collect()
}

fn pair(key: &str, value: &str) -> (String, String) {
    (key.to_string(), value.to_string())
}

#[test]
fn the_four_shapes_are_told_by_how_the_url_begins() {
    assert_eq!(shape_of("https://www.youtube.com/channel/UCxxxx"), Some(YoutubePage::Channel));
    assert_eq!(shape_of("https://www.youtube.com/user/someone"), Some(YoutubePage::User));
    assert_eq!(shape_of("https://www.youtube.com/playlist?list=XYZ"), Some(YoutubePage::Playlist));
    assert_eq!(shape_of("https://www.youtube.com/watch?v=abc"), Some(YoutubePage::Watch));
}

#[test]
fn other_urls_have_none_of_the_shapes() {
    assert_eq!(shape_of("https://www.youtube.com/"), None);
    assert_eq!(shape_of("https://www.youtube.com/channel"), None);
    assert_eq!(shape_of("https://www.youtube.com/playlist?v=abc"), None);
    assert_eq!(shape_of("http://www.youtube.com/channel/UCxxxx"), None);
    assert_eq!(shape_of("https://youtube.com/user/someone"), None);
    assert_eq!(shape_of("https://example.com/channel/UCxxxx"), None);
    assert_eq!(shape_of(""), None);
}

#[test]
fn each_shape_has_its_feed_address() {
    assert_eq!(
        address_of(YoutubePage::Channel, "UCxxxx"),
        "https://www.youtube.com/feeds/videos.xml?channel_id=UCxxxx"
    );
    assert_eq!(
        address_of(YoutubePage::User, "someone"),
        "https://www.youtube.com/feeds/videos.xml?user=someone"
    );
    assert_eq!(
        address_of(YoutubePage::Playlist, "XYZ"),
        "https://www.youtube.com/feeds/videos.xml?playlist_id=XYZ"
    );
    assert_eq!(
        address_of(YoutubePage::Watch, "XYZ"),
        "https://www.youtube.com/feeds/videos.xml?playlist_id=XYZ"
    );
}

#[test]
fn the_first_pair_with_the_key_gives_the_value() {
    let pairs = vec![pair("v", "abc"), pair("list", "first"), pair("list", "second")];
    assert_eq!(value_of(&pairs, "list"), Some("first".to_string()));
    assert_eq!(value_of(&pairs, "v"), Some("abc".to_string()));
    assert_eq!(value_of(&pairs, "t"), None);
    assert_eq!(value_of(&pairs, "LIST"), None);
    assert_eq!(value_of(&vec![], "list"), None);
}

#[test]
fn a_channel_page_has_the_feed_of_its_channel() {
    let base = Url::parse("https://www.youtube.com/channel/UCxxxx").unwrap();
    assert_eq!(
        listed(detect_feeds(&base, "<html><head></head><body>YouTube</body></html>")),
        vec![(
            "https://www.youtube.com/feeds/videos.xml?channel_id=UCxxxx".to_string(),
            FeedType::Atom
        )]
    );
}

#[test]
fn a_watch_page_with_a_playlist_has_the_feed_of_the_playlist() {
    let base = Url::parse("https://www.youtube.com/watch?v=abc&list=XYZ").unwrap();
    assert_eq!(
        listed(detect_feeds(&base, "<html><head></head><body>YouTube</body></html>")),
        vec![(
            "https://www.youtube.com/feeds/videos.xml?playlist_id=XYZ".to_string(),
            FeedType::Atom
        )]
    );
}

#[test]
fn a_watch_page_without_a_playlist_has_no_feed() {
    let base = Url::parse("https://www.youtube.com/watch?v=abc").unwrap();
    assert_eq!(FeedFinder::new(&base, "").youtube(), Ok(vec![]));
    assert_eq!(detect_feeds(&base, "<html><head></head><body>YouTube</body></html>"), Ok(vec![]));
}

#[test]
fn the_channel_is_the_second_path_segment_only() {
    let base = Url::parse("https://www.youtube.com/channel/UCxxxx/videos?view=0").unwrap();
    assert_eq!(
        listed(FeedFinder::new(&base, "").youtube()),
        vec![(
            "https://www.youtube.com/feeds/videos.xml?channel_id=UCxxxx".to_string(),
            FeedType::Atom
        )]
    );
}

#[test]
fn the_value_of_the_list_parameter_is_decoded() {
    let base = Url::parse("https://www.youtube.com/playlist?list=a%2Fb+c&list=other").unwrap();
    assert_eq!(
        listed(FeedFinder::new(&base, "").youtube()),
        vec![(
            "https://www.youtube.com/feeds/videos.xml?playlist_id=a/b%20c".to_string(),
            FeedType::Atom
        )]
    );
}

#[test]
fn the_markup_plays_no_part() {
    let base = Url::parse("https://www.youtube.com/user/someone").unwrap();
    let html = r#"<html><body><a href="/feed">feed</a> made with Hugo</body></html>"#;
    assert_eq!(
        listed(FeedFinder::new(&base, html).youtube()),
        listed(FeedFinder::new(&base, "").youtube())
    );
    assert_eq!(
        listed(detect_feeds(&base, html)),
        vec![("https://www.youtube.com/feeds/videos.xml?user=someone".to_string(), FeedType::Atom)]
    );
}

#[test]
fn a_page_elsewhere_has_no_youtube_feed() {
    let base = Url::parse("https://example.com/channel/UCxxxx").unwrap();
    assert_eq!(FeedFinder::new(&base, "").youtube(), Ok(vec![]));
}

#[test]
fn a_channel_page_without_a_channel_has_no_feed() {
    let base = Url::parse("https://www.youtube.com/channel/").unwrap();
    assert_eq!(FeedFinder::new(&base, "").youtube(), Ok(vec![]));
    assert_eq!(detect_feeds(&base, "<html><head></head><body>YouTube</body></html>"), Ok(vec![]));
    let base = Url::parse("https://www.youtube.com/channel//videos").unwrap();
    assert_eq!(FeedFinder::new(&base, "").youtube(), Ok(vec![]));
}

#[test]
fn a_user_page_without_a_user_has_no_feed() {
    let base = Url::parse("https://www.youtube.com/user/").unwrap();
    assert_eq!(FeedFinder::new(&base, "").youtube(), Ok(vec![]));
    assert_eq!(detect_feeds(&base, "<html><head></head><body>YouTube</body></html>"), Ok(vec![]));
    let base = Url::parse("https://www.youtube.com/user/?tab=videos").unwrap();
    assert_eq!(FeedFinder::new(&base, "").youtube(), Ok(vec![]));
}

#[test]
fn an_empty_list_parameter_names_no_playlist() {
    let base = Url::parse("https://www.youtube.com/playlist?list=").unwrap();
    assert_eq!(FeedFinder::new(&base, "").youtube(), Ok(vec![]));
    let base = Url::parse("https://www.youtube.com/watch?v=abc&list=").unwrap();
    assert_eq!(FeedFinder::new(&base, "").youtube(), Ok(vec![]));
}

#[test]
fn the_first_list_parameter_decides_even_where_it_is_empty() {
    let base = Url::parse("https://www.youtube.com/watch?list=&v=abc&list=XYZ").unwrap();
    assert_eq!(FeedFinder::new(&base, "").youtube(), Ok(vec![]));
    assert_eq!(list_of(&Some(vec![pair("list", ""), pair("list", "XYZ")])), Some(String::new()));
    assert_eq!(list_of(&Some(vec![pair("v", "abc"), pair("list", "XYZ")])), Some("XYZ".to_string()));
    assert_eq!(list_of(&Some(vec![pair("v", "abc")])), None);
    assert_eq!(list_of(&None), None);
}

#[test]
fn only_a_text_that_is_not_empty_is_a_name() {
    assert_eq!(name_of(Some("UCxxxx".to_string())), Some("UCxxxx".to_string()));
    assert_eq!(name_of(Some(" ".to_string())), Some(" ".to_string()));
    assert_eq!(name_of(Some(String::new())), None);
    assert_eq!(name_of(None), None);
}
