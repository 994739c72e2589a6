//! The values a detection hands back: candidate feeds and the errors that end
//! a detection early.

use crate::resolver::Url;
use vstd::prelude::*;

verus! {

/// How a candidate feed was found, and for declared feeds their format.
#[derive(Debug, PartialEq, Eq, Clone, Copy, Structural)]
pub enum FeedType {
    /// Declared with the MIME type `application/rss+xml`.
    Rss,
    /// Declared with the MIME type `application/atom+xml`.
    Atom,
    /// Declared with the MIME type `application/json`.
    Json,
    /// An anchor in the page body whose target looks like a feed.
    Link,
    /// Inferred from the software that generated the page.
    Guess,
}

/// Why a detection stopped without a result.
#[derive(Debug, PartialEq)]
pub enum FeedFinderError {
    /// A reference could not be resolved to an absolute URL.
    Url(url::ParseError),
    /// The document could not be queried: a selector was refused, or the
    /// document is nested too deeply to be written out as text.
    Select,
}

/// What a [`Feed`] is, as a mathematical value.
pub struct FeedModel {
    pub url: Seq<char>,
    pub feed_type: FeedType,
}

/// A candidate feed: an absolute URL and how it was found.
#[derive(Debug)]
pub struct Feed {
    url: Url,
    type_: FeedType,
}

impl View for Feed {
    type V = FeedModel;

    closed spec fn view(&self) -> FeedModel {
        FeedModel { url: self.url@, feed_type: self.type_ }
    }
}

impl PartialEq for Feed {
    fn eq(&self, other: &Feed) -> (same: bool) {
        self.url == other.url && self.type_ == other.type_
    }
}

/// Two feeds are equal where their URLs and their types are.
impl vstd::std_specs::cmp::PartialEqSpecImpl for Feed {
    open spec fn obeys_eq_spec() -> bool {
        true
    }

    open spec fn eq_spec(&self, other: &Feed) -> bool {
        self@ == other@
    }
}

impl Feed {
    pub(crate) fn new(url: Url, type_: FeedType) -> (feed: Feed)
        ensures
            feed@ == (FeedModel { url: url@, feed_type: type_ }),
    {
        Feed { url, type_ }
    }

    /// The absolute URL of this feed.
    pub fn url(&self) -> (url: &Url)
        ensures
            url@ == self@.url,
    {
        &self.url
    }

    /// How this feed was found.
    pub fn feed_type(&self) -> (feed_type: &FeedType)
        ensures
            *feed_type == self@.feed_type,
    {
        &self.type_
    }
}

/// What a list of feeds is, as a mathematical value.
pub open spec fn feed_models(feeds: Seq<Feed>) -> Seq<FeedModel> {
    feeds.map_values(|feed: Feed| feed@)
}

/// What the outcome of a strategy, or of a whole detection, is as a
/// mathematical value.
pub open spec fn outcome_model(outcome: Result<Vec<Feed>, FeedFinderError>) -> Result<
    Seq<FeedModel>,
    FeedFinderError,
> {
    match outcome {
        Ok(feeds) => Ok(feed_models(feeds@)),
        Err(e) => Err(e),
    }
}

} // verus!
