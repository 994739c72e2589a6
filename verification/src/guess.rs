//! Feeds guessed from the software that generated a page.

use crate::candidate::{
    candidate_models, lemma_resolved_kinds, resolve, resolved, Candidate, CandidateModel,
};
use crate::feed::{feed_models, outcome_model, Feed, FeedFinderError, FeedModel, FeedType};
use crate::finder::FeedFinder;
use crate::page::{html_text, text_of, too_deep};
use crate::resolver::{segments_view, url_host, url_path_segments};
use crate::text::{chars_of, ends_with, lowercase, occurs, occurs_in, to_lowercase};
use vstd::prelude::*;
use vstd::string::StringExecFns;

verus! {

/// The publishing software whose pages are recognised.
#[derive(Debug, PartialEq, Eq, Clone, Copy, Structural)]
pub enum Generator {
    /// Tumblr, whose feed is at `/rss`.
    Tumblr,
    /// WordPress, whose feed is at `/feed`.
    WordPress,
    /// Hugo, which writes `index.xml` into a directory of the site.
    Hugo,
    /// Jekyll, which writes `atom.xml` into a directory of the site.
    Jekyll,
    /// Ghost, whose feed is at `/rss/`.
    GhostBlog,
}

/// Whether a host belongs to GitHub Pages, which serves Jekyll sites.
pub open spec fn on_github_pages(host: Option<Seq<char>>) -> bool {
    match host {
        Some(host) => "github.io"@.is_suffix_of(host),
        None => false,
    }
}

/// The software that generated a page, told from the page's text in lower case
/// and the host it was retrieved from. The signatures are tried in this order
/// and the first that is found decides.
pub open spec fn page_generator(markup: Seq<char>, host: Option<Seq<char>>) -> Option<Generator> {
    if occurs_in("tumblr.com"@, markup) {
        Some(Generator::Tumblr)
    } else if occurs_in("wordpress"@, markup) {
        Some(Generator::WordPress)
    } else if occurs_in("hugo"@, markup) {
        Some(Generator::Hugo)
    } else if occurs_in("jekyll"@, markup) || on_github_pages(host) {
        Some(Generator::Jekyll)
    } else if occurs_in("ghost"@, markup) {
        Some(Generator::GhostBlog)
    } else {
        None
    }
}

/// How many directories of a path are climbed: the segments before the first
/// empty one. A path that ends in `/` has an empty last segment.
pub open spec fn depth(segments: Seq<Seq<char>>) -> nat
    decreases segments.len(),
{
    if segments.len() == 0 || segments[0].len() == 0 {
        0
    } else {
        1 + depth(segments.drop_first())
    }
}

/// The path of the directory that the first `level` segments lead to, from the
/// root, with `/` at both ends.
pub open spec fn directory(segments: Seq<Seq<char>>, level: int) -> Seq<char>
    decreases level,
{
    if level <= 0 {
        "/"@
    } else {
        directory(segments, level - 1) + segments[level - 1] + "/"@
    }
}

/// A guessed candidate.
pub open spec fn guessed(reference: Seq<char>) -> CandidateModel {
    CandidateModel { reference, kind: FeedType::Guess }
}

/// The candidates for a feed file that may lie in any directory on the way to
/// a page: one in each directory from the root down to the page's own, the
/// root first. None for a URL without path segments.
pub open spec fn climb(segments: Option<Seq<Seq<char>>>, feed_file: Seq<char>) -> Seq<
    CandidateModel,
> {
    match segments {
        Some(segments) => Seq::new(
            depth(segments) + 1,
            |level: int| guessed(directory(segments, level) + feed_file),
        ),
        None => Seq::empty(),
    }
}

/// The candidates for the feed of a page that `generator` made.
pub open spec fn guess_candidates(
    generator: Generator,
    segments: Option<Seq<Seq<char>>>,
) -> Seq<CandidateModel> {
    match generator {
        Generator::Tumblr => seq![guessed("/rss"@)],
        Generator::WordPress => seq![guessed("/feed"@)],
        Generator::Hugo => climb(segments, "index.xml"@),
        Generator::Jekyll => climb(segments, "atom.xml"@),
        Generator::GhostBlog => seq![guessed("/rss/"@)],
    }
}

/// What climbing the path of `base` for `feed_file` yields.
pub open spec fn climbed_feeds(base: Seq<char>, feed_file: Seq<char>) -> Result<
    Seq<FeedModel>,
    FeedFinderError,
> {
    resolved(base, climb(url_path_segments(base), feed_file))
}

/// What the guess strategy yields for the markup `html` of a page retrieved
/// from `base`. A document that is nested too deeply to be written out as text
/// cannot be searched for a signature: that is a failure of the document, not
/// a page without a feed.
pub open spec fn guessed_feeds(base: Seq<char>, html: Seq<char>) -> Result<
    Seq<FeedModel>,
    FeedFinderError,
> {
    if too_deep(html) {
        Err(FeedFinderError::Select)
    } else {
        match page_generator(lowercase(html_text(html)), url_host(base)) {
            Some(generator) => resolved(base, guess_candidates(generator, url_path_segments(base))),
            None => Ok(Seq::empty()),
        }
    }
}

/// The depth of a path is the position of its first empty segment, or its
/// length where no segment is empty.
pub proof fn lemma_depth(segments: Seq<Seq<char>>, level: int)
    requires
        0 <= level <= segments.len(),
        forall|j: int| 0 <= j < level ==> (#[trigger] segments[j]).len() > 0,
        level == segments.len() || segments[level].len() == 0,
    ensures
        depth(segments) == level,
    decreases level,
{
    if level > 0 {
        let rest = segments.drop_first();
        assert forall|j: int| 0 <= j < level - 1 implies (#[trigger] rest[j]).len() > 0 by {
            assert(rest[j] == segments[j + 1]);
        }
        lemma_depth(rest, level - 1);
    }
}

/// Each directory on the way lies in the one before: the candidates of a
/// climb grow more specific, the root first.
pub proof fn lemma_directory_grows(segments: Seq<Seq<char>>, level: int)
    requires
        0 <= level,
    ensures
        directory(segments, level).is_prefix_of(directory(segments, level + 1)),
        directory(segments, level).len() < directory(segments, level + 1).len(),
{
    reveal_strlit("/");
}

/// A guessed feed is of type `Guess`.
pub proof fn lemma_guess_kinds(base: Seq<char>, html: Seq<char>)
    ensures
        guessed_feeds(base, html) matches Ok(feeds) ==> forall|i: int|
            0 <= i < feeds.len() ==> (#[trigger] feeds[i]).feed_type == FeedType::Guess,
{
    if let Some(generator) = page_generator(lowercase(html_text(html)), url_host(base)) {
        let candidates = guess_candidates(generator, url_path_segments(base));
        lemma_resolved_kinds(base, candidates, set![FeedType::Guess]);
    }
}

/// The guess strategy fails on a document that is nested too deeply, and on no
/// other unless a guessed reference does not resolve.
pub proof fn lemma_guess_too_deep(base: Seq<char>, html: Seq<char>)
    ensures
        too_deep(html) ==> guessed_feeds(base, html) == Err::<Seq<FeedModel>, FeedFinderError>(
            FeedFinderError::Select,
        ),
        guessed_feeds(base, html) == Err::<Seq<FeedModel>, FeedFinderError>(FeedFinderError::Select)
            ==> too_deep(html),
{
    if !too_deep(html) {
        if let Some(generator) = page_generator(lowercase(html_text(html)), url_host(base)) {
            let candidates = guess_candidates(generator, url_path_segments(base));
            crate::candidate::lemma_resolved_err(base, candidates);
        }
    }
}

/// A path is climbed from the root to the directory before its first empty
/// segment, or to its end: where that takes `levels` segments, there are
/// `levels + 1` candidates, the feed file in the directory of each prefix of
/// the path of `0` to `levels` segments, the shortest first.
pub proof fn lemma_climb_levels(segments: Seq<Seq<char>>, levels: int, feed_file: Seq<char>)
    requires
        0 <= levels <= segments.len(),
        forall|j: int| 0 <= j < levels ==> (#[trigger] segments[j]).len() > 0,
        levels == segments.len() || segments[levels].len() == 0,
    ensures
        climb(Some(segments), feed_file).len() == levels + 1,
        forall|level: int|
            0 <= level <= levels ==> #[trigger] climb(Some(segments), feed_file)[level] == guessed(
                directory(segments, level) + feed_file,
            ),
{
    lemma_depth(segments, levels);
}

/// Tells which software generated a page, from the page's text in lower case
/// and the host it was retrieved from.
pub fn generator_of(markup: &str, host: &Option<String>) -> (found: Option<Generator>)
    ensures
        found == page_generator(markup@, crate::resolver::text_view(*host)),
{
    let text = chars_of(markup);
    if occurs(&chars_of("tumblr.com"), &text) {
        Some(Generator::Tumblr)
    } else if occurs(&chars_of("wordpress"), &text) {
        Some(Generator::WordPress)
    } else if occurs(&chars_of("hugo"), &text) {
        Some(Generator::Hugo)
    } else if occurs(&chars_of("jekyll"), &text) || is_github_pages(host) {
        Some(Generator::Jekyll)
    } else if occurs(&chars_of("ghost"), &text) {
        Some(Generator::GhostBlog)
    } else {
        None
    }
}

/// Tells whether a host belongs to GitHub Pages.
pub fn is_github_pages(host: &Option<String>) -> (found: bool)
    ensures
        found == on_github_pages(crate::resolver::text_view(*host)),
{
    match host {
        Some(host) => ends_with(&chars_of(host.as_str()), &chars_of("github.io")),
        None => false,
    }
}

/// The candidates for `feed_file` in each directory on the way to a page with
/// the path segments `segments`, the root first.
pub fn climb_references(segments: &Option<Vec<String>>, feed_file: &str) -> (candidates: Vec<
    Candidate,
>)
    ensures
        candidate_models(candidates@) == climb(segments_view(*segments), feed_file@),
{
    let mut candidates: Vec<Candidate> = Vec::new();
    match segments {
        None => {},
        Some(list) => {
            let ghost path = list.deep_view();
            let mut here = String::from_str("/");
            let mut level: usize = 0;
            loop
                invariant_except_break
                    level <= list.len(),
                    path == list.deep_view(),
                    here@ == directory(path, level as int),
                    forall|j: int| 0 <= j < level ==> (#[trigger] path[j]).len() > 0,
                    candidate_models(candidates@) == Seq::new(
                        level as nat,
                        |k: int| guessed(directory(path, k) + feed_file@),
                    ),
                ensures
                    candidate_models(candidates@) == Seq::new(
                        depth(path) + 1,
                        |k: int| guessed(directory(path, k) + feed_file@),
                    ),
                decreases list.len() - level,
            {
                let ghost before = candidate_models(candidates@);
                let reference = here.clone().concat(feed_file);
                candidates.push(Candidate { reference, kind: FeedType::Guess });
                assert(candidate_models(candidates@) =~= before.push(
                    guessed(directory(path, level as int) + feed_file@),
                ));
                if level >= list.len() {
                    proof {
                        lemma_depth(path, level as int);
                    }
                    break ;
                }
                let segment = list[level].as_str();
                if segment.is_empty() {
                    proof {
                        lemma_depth(path, level as int);
                    }
                    break ;
                }
                here.append(segment);
                here.append("/");
                level += 1;
            }
        },
    }
    candidates
}

impl<'a> FeedFinder<'a> {
    /// Guesses that `feed_file` lies in one of the directories on the way to
    /// the page.
    pub fn guess_segments(&self, feed_file: &str) -> (outcome: Result<Vec<Feed>, FeedFinderError>)
        ensures
            outcome_model(outcome) == climbed_feeds(self.base(), feed_file@),
    {
        let segments = self.base_url().path_segments();
        let candidates = climb_references(&segments, feed_file);
        resolve(self.base_url(), &candidates)
    }

    /// Guesses one location relative to the root of the site.
    fn guess_location(&self, location: &str) -> (outcome: Result<Vec<Feed>, FeedFinderError>)
        ensures
            outcome_model(outcome) == resolved(self.base(), seq![guessed(location@)]),
    {
        let mut candidates: Vec<Candidate> = Vec::new();
        candidates.push(Candidate { reference: String::from_str(location), kind: FeedType::Guess });
        assert(candidate_models(candidates@) =~= seq![guessed(location@)]);
        resolve(self.base_url(), &candidates)
    }

    /// Guesses where the software that generated the page puts its feed.
    pub fn guess(&self) -> (outcome: Result<Vec<Feed>, FeedFinderError>)
        ensures
            outcome_model(outcome) == guessed_feeds(self.base(), self.markup()),
    {
        let text = match text_of(self.html()) {
            Some(text) => text,
            None => {
                return Err(FeedFinderError::Select);
            },
        };
        let markup = to_lowercase(text.as_str());
        let host = self.base_url().host_str();
        match generator_of(markup.as_str(), &host) {
            Some(Generator::Tumblr) => self.guess_location("/rss"),
            Some(Generator::WordPress) => self.guess_location("/feed"),
            Some(Generator::Hugo) => self.guess_segments("index.xml"),
            Some(Generator::Jekyll) => self.guess_segments("atom.xml"),
            Some(Generator::GhostBlog) => self.guess_location("/rss/"),
            None => {
                let feeds: Vec<Feed> = Vec::new();
                assert(feed_models(feeds@) =~= Seq::empty());
                Ok(feeds)
            },
        }
    }
}

} // verus!
