//! Absolute URLs, held by their serialization, and the questions about them
//! that the `url` crate answers.

use crate::feed::FeedFinderError;
use vstd::prelude::*;

verus! {

/// The errors of the `url` crate's parser, `url::ParseError`. Nothing is said
/// of what one holds.
#[verifier::external_type_specification]
#[verifier::external_body]
pub struct ExParseError(url::ParseError);

/// What `url::Url::parse` makes of `input`: the serialization of the URL it
/// returns, or the error it reports.
pub uninterp spec fn url_parse(input: Seq<char>) -> Result<Seq<char>, url::ParseError>;

/// What `url::Url::join` makes of `reference` on the URL that `base` parses
/// to: the serialization of the URL it returns, or the error it reports.
/// Where `base` itself does not parse, the error of that.
pub uninterp spec fn url_join(base: Seq<char>, reference: Seq<char>) -> Result<
    Seq<char>,
    url::ParseError,
>;

/// What `url::Url::path_segments` hands out for the URL that `url` parses
/// to: its path cut at each `/`. `None` for a URL that cannot be a base, and
/// where `url` does not parse.
pub uninterp spec fn url_path_segments(url: Seq<char>) -> Option<Seq<Seq<char>>>;

/// What `url::Url::query_pairs` hands out for the URL that `url` parses to:
/// the decoded keys and values of its query, in their order. `None` where
/// `url` does not parse.
pub uninterp spec fn url_query_pairs(url: Seq<char>) -> Option<Seq<(Seq<char>, Seq<char>)>>;

/// What `url::Url::host_str` returns for the URL that `url` parses to. `None`
/// for a URL without a host, and where `url` does not parse.
pub uninterp spec fn url_host(url: Seq<char>) -> Option<Seq<char>>;

/// The view of a parse or join result.
pub open spec fn text_result(r: Result<String, url::ParseError>) -> Result<
    Seq<char>,
    url::ParseError,
> {
    match r {
        Ok(text) => Ok(text@),
        Err(e) => Err(e),
    }
}

/// The view of a list of path segments.
pub open spec fn segments_view(r: Option<Vec<String>>) -> Option<Seq<Seq<char>>> {
    match r {
        Some(segments) => Some(segments.deep_view()),
        None => None,
    }
}

/// The view of a list of query pairs.
pub open spec fn pairs_view(r: Option<Vec<(String, String)>>) -> Option<
    Seq<(Seq<char>, Seq<char>)>,
> {
    match r {
        Some(pairs) => Some(pairs.deep_view()),
        None => None,
    }
}

/// The view of an optional text.
pub open spec fn text_view(r: Option<String>) -> Option<Seq<char>> {
    match r {
        Some(text) => Some(text@),
        None => None,
    }
}

/// Calls `url::Url::parse` and keeps the serialization of the URL it returns.
/// Taken on trust: that the outcome depends on the input alone, which is all
/// that naming it [`url_parse`] says.
#[verifier::external_body]
fn parse_text(input: &str) -> (r: Result<String, url::ParseError>)
    ensures
        text_result(r) == url_parse(input@),
{
    url::Url::parse(input).map(String::from)
}

/// Parses `base` with `url::Url::parse`, calls `url::Url::join` on it with
/// `reference` and keeps the serialization of the URL that comes back. Taken
/// on trust: that the outcome depends on the two texts alone, which is all
/// that naming it [`url_join`] says.
#[verifier::external_body]
fn join_text(base: &str, reference: &str) -> (r: Result<String, url::ParseError>)
    ensures
        text_result(r) == url_join(base@, reference@),
{
    url::Url::parse(base)?.join(reference).map(String::from)
}

/// Parses `text` with `url::Url::parse` and collects what
/// `url::Url::path_segments` hands out. Taken on trust: that the outcome
/// depends on the text alone, which is all that naming it
/// [`url_path_segments`] says.
#[verifier::external_body]
fn path_segments_of(text: &str) -> (r: Option<Vec<String>>)
    ensures
        segments_view(r) == url_path_segments(text@),
{
    let parsed = url::Url::parse(text).ok()?;
    let segments = parsed.path_segments()?;
    Some(segments.map(String::from).collect())
}

/// Parses `text` with `url::Url::parse` and collects what
/// `url::Url::query_pairs` hands out, each key and value as an owned text.
/// Taken on trust: that the outcome depends on the text alone, which is all
/// that naming it [`url_query_pairs`] says.
#[verifier::external_body]
fn query_pairs_of(text: &str) -> (r: Option<Vec<(String, String)>>)
    ensures
        pairs_view(r) == url_query_pairs(text@),
{
    let parsed = url::Url::parse(text).ok()?;
    Some(parsed.query_pairs().map(|(key, value)| (key.into_owned(), value.into_owned())).collect())
}

/// Parses `text` with `url::Url::parse` and copies what `url::Url::host_str`
/// returns. Taken on trust: that the outcome depends on the text alone, which
/// is all that naming it [`url_host`] says.
#[verifier::external_body]
fn host_of(text: &str) -> (r: Option<String>)
    ensures
        text_view(r) == url_host(text@),
{
    let parsed = url::Url::parse(text).ok()?;
    parsed.host_str().map(String::from)
}

/// An absolute URL, held by its serialization as the `url` crate writes it.
/// One is made by [`Url::parse`] and [`Url::join`] only.
#[derive(Debug, Eq)]
pub struct Url {
    serialization: String,
}

impl View for Url {
    type V = Seq<char>;

    closed spec fn view(&self) -> Seq<char> {
        self.serialization@
    }
}

/// What [`Url::parse`] and [`Url::join`] return for a result of the `url`
/// crate.
pub open spec fn resolution(outcome: Result<Seq<char>, url::ParseError>) -> Result<
    Seq<char>,
    FeedFinderError,
> {
    match outcome {
        Ok(text) => Ok(text),
        Err(e) => Err(FeedFinderError::Url(e)),
    }
}

/// The view of a parsed or resolved URL.
pub open spec fn url_result(r: Result<Url, FeedFinderError>) -> Result<Seq<char>, FeedFinderError> {
    match r {
        Ok(url) => Ok(url@),
        Err(e) => Err(e),
    }
}

impl PartialEq for Url {
    fn eq(&self, other: &Url) -> (same: bool) {
        self.serialization == other.serialization
    }
}

/// Two URLs are equal where their serializations are.
impl vstd::std_specs::cmp::PartialEqSpecImpl for Url {
    open spec fn obeys_eq_spec() -> bool {
        true
    }

    open spec fn eq_spec(&self, other: &Url) -> bool {
        self@ == other@
    }
}

impl Clone for Url {
    fn clone(&self) -> (copy: Url)
        ensures
            copy@ == self@,
    {
        Url { serialization: self.serialization.clone() }
    }
}

impl Url {
    /// Parses an absolute URL.
    pub fn parse(input: &str) -> (r: Result<Url, FeedFinderError>)
        ensures
            url_result(r) == resolution(url_parse(input@)),
    {
        match parse_text(input) {
            Ok(serialization) => Ok(Url { serialization }),
            Err(e) => Err(FeedFinderError::Url(e)),
        }
    }

    /// Resolves `reference`, which may be relative, against this URL.
    pub fn join(&self, reference: &str) -> (r: Result<Url, FeedFinderError>)
        ensures
            url_result(r) == resolution(url_join(self@, reference@)),
    {
        match join_text(self.serialization.as_str(), reference) {
            Ok(serialization) => Ok(Url { serialization }),
            Err(e) => Err(FeedFinderError::Url(e)),
        }
    }

    /// The serialization of this URL.
    pub fn as_str(&self) -> (text: &str)
        ensures
            text@ == self@,
    {
        self.serialization.as_str()
    }

    /// The path of this URL, cut at each `/`; `None` for a URL that cannot be a
    /// base.
    pub(crate) fn path_segments(&self) -> (r: Option<Vec<String>>)
        ensures
            segments_view(r) == url_path_segments(self@),
    {
        path_segments_of(self.serialization.as_str())
    }

    /// The decoded keys and values of this URL's query, in their order.
    pub(crate) fn query_pairs(&self) -> (r: Option<Vec<(String, String)>>)
        ensures
            pairs_view(r) == url_query_pairs(self@),
    {
        query_pairs_of(self.serialization.as_str())
    }

    /// The host of this URL, if it has one.
    pub(crate) fn host_str(&self) -> (r: Option<String>)
        ensures
            text_view(r) == url_host(self@),
    {
        host_of(self.serialization.as_str())
    }
}

} // verus!
