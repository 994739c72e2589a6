//! Feeds of YouTube pages, recognised by the shape of the page's URL alone.

use crate::feed::{feed_models, outcome_model, Feed, FeedFinderError, FeedModel, FeedType};
use crate::finder::FeedFinder;
use crate::resolver::{
    pairs_view, segments_view, text_view, url_parse, url_path_segments, url_query_pairs, Url,
};
use crate::text::{begins_with, chars_of, same_text};
use vstd::prelude::*;
use vstd::string::StringExecFns;

verus! {

/// The shapes of YouTube URL that have a feed.
#[derive(Debug, PartialEq, Eq, Clone, Copy, Structural)]
pub enum YoutubePage {
    /// `https://www.youtube.com/channel/<id>`
    Channel,
    /// `https://www.youtube.com/user/<id>`
    User,
    /// `https://www.youtube.com/playlist?list=<id>`
    Playlist,
    /// `https://www.youtube.com/watch?...&list=<id>`
    Watch,
}

/// The shape of a URL, by how its serialization begins. The shapes are tried
/// in the order of their declaration and the first that fits is taken.
pub open spec fn page_shape(url: Seq<char>) -> Option<YoutubePage> {
    if "https://www.youtube.com/channel/"@.is_prefix_of(url) {
        Some(YoutubePage::Channel)
    } else if "https://www.youtube.com/user/"@.is_prefix_of(url) {
        Some(YoutubePage::User)
    } else if "https://www.youtube.com/playlist?list="@.is_prefix_of(url) {
        Some(YoutubePage::Playlist)
    } else if "https://www.youtube.com/watch"@.is_prefix_of(url) {
        Some(YoutubePage::Watch)
    } else {
        None
    }
}

/// The path segment at position `nth`, counted from zero.
pub open spec fn nth_segment(segments: Option<Seq<Seq<char>>>, nth: int) -> Option<Seq<char>> {
    match segments {
        Some(segments) => if 0 <= nth < segments.len() {
            Some(segments[nth])
        } else {
            None
        },
        None => None,
    }
}

/// The value of the first pair whose key is `key`.
pub open spec fn first_value(pairs: Seq<(Seq<char>, Seq<char>)>, key: Seq<char>) -> Option<
    Seq<char>,
>
    decreases pairs.len(),
{
    if pairs.len() == 0 {
        None
    } else if pairs[0].0 == key {
        Some(pairs[0].1)
    } else {
        first_value(pairs.drop_first(), key)
    }
}

/// The feed of a page of shape `page` whose channel, user or playlist is `id`.
pub open spec fn feed_address(page: YoutubePage, id: Seq<char>) -> Seq<char> {
    match page {
        YoutubePage::Channel => "https://www.youtube.com/feeds/videos.xml?channel_id="@ + id,
        YoutubePage::User => "https://www.youtube.com/feeds/videos.xml?user="@ + id,
        YoutubePage::Playlist => "https://www.youtube.com/feeds/videos.xml?playlist_id="@ + id,
        YoutubePage::Watch => "https://www.youtube.com/feeds/videos.xml?playlist_id="@ + id,
    }
}

/// A text that names something: one that is there and is not empty.
pub open spec fn named(text: Option<Seq<char>>) -> Option<Seq<char>> {
    match text {
        Some(text) => if text.len() > 0 {
            Some(text)
        } else {
            None
        },
        None => None,
    }
}

/// The `list` parameter of a query: the value of the first pair whose key is
/// `list`, whatever follows it.
pub open spec fn list_value(pairs: Option<Seq<(Seq<char>, Seq<char>)>>) -> Option<Seq<char>> {
    match pairs {
        Some(pairs) => first_value(pairs, "list"@),
        None => None,
    }
}

/// What names the feed of a page of shape `page`: for a channel or a user the
/// second path segment, for a playlist the `list` parameter of the query. A
/// segment or parameter that is missing names nothing, and neither does one
/// that is empty: `https://www.youtube.com/channel/` is the page of no
/// channel, and `list=` names no playlist.
pub open spec fn feed_id(
    page: YoutubePage,
    segments: Option<Seq<Seq<char>>>,
    pairs: Option<Seq<(Seq<char>, Seq<char>)>>,
) -> Option<Seq<char>> {
    match page {
        YoutubePage::Channel => named(nth_segment(segments, 1)),
        YoutubePage::User => named(nth_segment(segments, 1)),
        YoutubePage::Playlist => named(list_value(pairs)),
        YoutubePage::Watch => named(list_value(pairs)),
    }
}

/// The address of the feed of the page at `url`, whose path segments and query
/// pairs are given: none where `url` has none of the four shapes, and none
/// where it has one but lacks the segment or parameter that names the feed.
pub open spec fn youtube_address(
    url: Seq<char>,
    segments: Option<Seq<Seq<char>>>,
    pairs: Option<Seq<(Seq<char>, Seq<char>)>>,
) -> Option<Seq<char>> {
    match page_shape(url) {
        Some(page) => match feed_id(page, segments, pairs) {
            Some(id) => Some(feed_address(page, id)),
            None => None,
        },
        None => None,
    }
}

/// What the YouTube strategy yields for a page retrieved from `base`: at most
/// one feed, of type `Atom`; an error where the feed's address does not parse.
pub open spec fn youtube_feeds(base: Seq<char>) -> Result<Seq<FeedModel>, FeedFinderError> {
    match youtube_address(base, url_path_segments(base), url_query_pairs(base)) {
        None => Ok(Seq::empty()),
        Some(address) => match url_parse(address) {
            Ok(url) => Ok(seq![FeedModel { url, feed_type: FeedType::Atom }]),
            Err(e) => Err(FeedFinderError::Url(e)),
        },
    }
}

/// The value found for a key is that of a pair with this key before which no
/// pair has it; none is found where no pair has the key.
pub proof fn lemma_first_value(pairs: Seq<(Seq<char>, Seq<char>)>, key: Seq<char>)
    ensures
        first_value(pairs, key) matches Some(value) ==> exists|i: int|
            {
                &&& 0 <= i < pairs.len()
                &&& #[trigger] pairs[i] == (key, value)
                &&& forall|j: int| 0 <= j < i ==> (#[trigger] pairs[j]).0 != key
            },
        first_value(pairs, key) is None ==> forall|j: int|
            0 <= j < pairs.len() ==> (#[trigger] pairs[j]).0 != key,
    decreases pairs.len(),
{
    if pairs.len() > 0 && pairs[0].0 != key {
        let rest = pairs.drop_first();
        lemma_first_value(rest, key);
        assert forall|j: int| 0 <= j < rest.len() implies rest[j] == pairs[j + 1] by {}
        if let Some(value) = first_value(rest, key) {
            let i = choose|i: int|
                {
                    &&& 0 <= i < rest.len()
                    &&& #[trigger] rest[i] == (key, value)
                    &&& forall|j: int| 0 <= j < i ==> (#[trigger] rest[j]).0 != key
                };
            assert(pairs[i + 1] == (key, value));
            assert forall|j: int| 0 <= j < i + 1 implies (#[trigger] pairs[j]).0 != key by {
                if j > 0 {
                    assert(rest[j - 1] == pairs[j]);
                }
            }
        } else {
            assert forall|j: int| 0 <= j < pairs.len() implies (#[trigger] pairs[j]).0 != key by {
                if j > 0 {
                    assert(rest[j - 1] == pairs[j]);
                }
            }
        }
    } else if pairs.len() > 0 {
        assert(pairs[0] == (key, pairs[0].1));
    }
}

/// A page without a name for its feed has none: where the segment or the
/// parameter that names the feed is missing or empty, the strategy yields no
/// feed and no error, whatever the shape of the URL.
pub proof fn lemma_unnamed_page(base: Seq<char>)
    requires
        page_shape(base) matches Some(page) ==> match page {
            YoutubePage::Channel | YoutubePage::User => match nth_segment(
                url_path_segments(base),
                1,
            ) {
                Some(id) => id.len() == 0,
                None => true,
            },
            YoutubePage::Playlist | YoutubePage::Watch => match list_value(url_query_pairs(base)) {
                Some(id) => id.len() == 0,
                None => true,
            },
        },
    ensures
        youtube_feeds(base) == Ok::<Seq<FeedModel>, FeedFinderError>(Seq::empty()),
{
}

/// Where a page has a feed address, the URL has one of the four shapes and
/// the address is written for the name of the feed, which is not empty.
pub proof fn lemma_address_names(
    url: Seq<char>,
    segments: Option<Seq<Seq<char>>>,
    pairs: Option<Seq<(Seq<char>, Seq<char>)>>,
)
    ensures
        youtube_address(url, segments, pairs) matches Some(address) ==> {
            &&& page_shape(url) matches Some(page)
            &&& feed_id(page, segments, pairs) matches Some(id)
            &&& id.len() > 0
            &&& address == feed_address(page, id)
        },
{
}

/// The YouTube strategy yields one feed at most, and that of type `Atom`.
pub proof fn lemma_youtube_one_atom(base: Seq<char>)
    ensures
        youtube_feeds(base) matches Ok(feeds) ==> {
            &&& feeds.len() <= 1
            &&& forall|i: int| 0 <= i < feeds.len() ==> (#[trigger] feeds[i]).feed_type == FeedType::Atom
        },
{
}

/// Tells which of the four shapes a URL has.
pub fn shape_of(url: &str) -> (page: Option<YoutubePage>)
    ensures
        page == page_shape(url@),
{
    let text = chars_of(url);
    if begins_with(&text, &chars_of("https://www.youtube.com/channel/")) {
        Some(YoutubePage::Channel)
    } else if begins_with(&text, &chars_of("https://www.youtube.com/user/")) {
        Some(YoutubePage::User)
    } else if begins_with(&text, &chars_of("https://www.youtube.com/playlist?list=")) {
        Some(YoutubePage::Playlist)
    } else if begins_with(&text, &chars_of("https://www.youtube.com/watch")) {
        Some(YoutubePage::Watch)
    } else {
        None
    }
}

/// Picks the segment at position `nth` out of a URL's path segments.
pub fn segment_at(segments: &Option<Vec<String>>, nth: usize) -> (segment: Option<String>)
    ensures
        text_view(segment) == nth_segment(segments_view(*segments), nth as int),
{
    match segments {
        Some(list) => {
            if nth < list.len() {
                Some(list[nth].clone())
            } else {
                None
            }
        },
        None => None,
    }
}

/// The path segment of `url` at position `nth`, counted from zero.
pub fn nth_path_segment(url: &Url, nth: usize) -> (segment: Option<String>)
    ensures
        text_view(segment) == nth_segment(url_path_segments(url@), nth as int),
{
    let segments = url.path_segments();
    segment_at(&segments, nth)
}

/// Finds the value of the first pair whose key is `key`.
pub fn value_of(pairs: &Vec<(String, String)>, key: &str) -> (value: Option<String>)
    ensures
        text_view(value) == first_value(pairs.deep_view(), key@),
{
    let mut i: usize = 0;
    assert(pairs.deep_view().skip(0) =~= pairs.deep_view());
    while i < pairs.len()
        invariant
            i <= pairs.len(),
            first_value(pairs.deep_view(), key@) == first_value(
                pairs.deep_view().skip(i as int),
                key@,
            ),
        decreases pairs.len() - i,
    {
        assert(pairs.deep_view().skip(i as int).drop_first() == pairs.deep_view().skip(i + 1));
        if same_text(pairs[i].0.as_str(), key) {
            return Some(pairs[i].1.clone());
        }
        i += 1;
    }
    None
}

/// Writes the address of the feed of a page of shape `page`.
pub fn address_of(page: YoutubePage, id: &str) -> (address: String)
    ensures
        address@ == feed_address(page, id@),
{
    let stem = match page {
        YoutubePage::Channel => "https://www.youtube.com/feeds/videos.xml?channel_id=",
        YoutubePage::User => "https://www.youtube.com/feeds/videos.xml?user=",
        YoutubePage::Playlist => "https://www.youtube.com/feeds/videos.xml?playlist_id=",
        YoutubePage::Watch => "https://www.youtube.com/feeds/videos.xml?playlist_id=",
    };
    String::from_str(stem).concat(id)
}

/// Keeps a text that names something: one that is there and is not empty.
pub fn name_of(text: Option<String>) -> (name: Option<String>)
    ensures
        text_view(name) == named(text_view(text)),
{
    match text {
        Some(text) => {
            if text.as_str().is_empty() {
                None
            } else {
                Some(text)
            }
        },
        None => None,
    }
}

/// The `list` parameter of a query.
pub fn list_of(pairs: &Option<Vec<(String, String)>>) -> (value: Option<String>)
    ensures
        text_view(value) == list_value(pairs_view(*pairs)),
{
    match pairs {
        Some(pairs) => value_of(pairs, "list"),
        None => None,
    }
}

impl<'a> FeedFinder<'a> {
    /// The feed of a YouTube channel, user or playlist page. The markup plays
    /// no part.
    pub fn youtube(&self) -> (outcome: Result<Vec<Feed>, FeedFinderError>)
        ensures
            outcome_model(outcome) == youtube_feeds(self.base()),
    {
        let base = self.base_url();
        let mut feeds = Vec::new();
        assert(feed_models(feeds@) =~= Seq::empty());
        let page = match shape_of(base.as_str()) {
            Some(page) => page,
            None => {
                return Ok(feeds);
            },
        };
        let id = match page {
            YoutubePage::Channel => name_of(nth_path_segment(base, 1)),
            YoutubePage::User => name_of(nth_path_segment(base, 1)),
            YoutubePage::Playlist => name_of(list_of(&base.query_pairs())),
            YoutubePage::Watch => name_of(list_of(&base.query_pairs())),
        };
        if let Some(id) = id {
            let address = address_of(page, id.as_str());
            match Url::parse(address.as_str()) {
                Ok(url) => {
                    feeds.push(Feed::new(url, FeedType::Atom));
                    assert(feed_models(feeds@) =~= seq![
                        FeedModel { url: url@, feed_type: FeedType::Atom },
                    ]);
                },
                Err(e) => {
                    return Err(e);
                },
            }
        }
        Ok(feeds)
    }
}

} // verus!
