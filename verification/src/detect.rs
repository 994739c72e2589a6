//! The detection itself: the strategies in their order of authority, the
//! first that has anything to say decides.

use crate::anchors::{anchor_feeds, lemma_anchor_kinds};
use crate::declared::{declared_feeds, lemma_declared_kinds};
use crate::feed::{feed_models, outcome_model, Feed, FeedFinderError, FeedModel, FeedType};
use crate::finder::FeedFinder;
use crate::guess::{guessed_feeds, lemma_guess_kinds};
use crate::page::MAX_DOCUMENT_CHARS;
use crate::resolver::Url;
use crate::youtube::{lemma_youtube_one_atom, youtube_feeds};
use vstd::prelude::*;

verus! {

/// Whether the outcome of a strategy ends the detection: it does where it is
/// an error, and where it holds a feed.
pub open spec fn decides(outcome: Result<Seq<FeedModel>, FeedFinderError>) -> bool {
    match outcome {
        Ok(feeds) => feeds.len() > 0,
        Err(_) => true,
    }
}

/// The outcome of no feed found.
pub open spec fn nothing() -> Result<Seq<FeedModel>, FeedFinderError> {
    Ok(Seq::empty())
}

/// The first outcome of a list that decides; no feed where none does.
pub open spec fn first_decisive(outcomes: Seq<Result<Seq<FeedModel>, FeedFinderError>>) -> Result<
    Seq<FeedModel>,
    FeedFinderError,
>
    decreases outcomes.len(),
{
    if outcomes.len() == 0 {
        nothing()
    } else if decides(outcomes[0]) {
        outcomes[0]
    } else {
        first_decisive(outcomes.drop_first())
    }
}

/// What each strategy yields for the markup `html` of a page retrieved from
/// `base`, in the order in which the strategies are tried: declared links,
/// YouTube, anchors of the body, guesses.
pub open spec fn strategies(base: Seq<char>, html: Seq<char>) -> Seq<
    Result<Seq<FeedModel>, FeedFinderError>,
> {
    seq![
        declared_feeds(base, html),
        youtube_feeds(base),
        anchor_feeds(base, html),
        guessed_feeds(base, html),
    ]
}

/// What a detection yields for the markup `html` of a page retrieved from
/// `base`.
pub open spec fn detected(base: Seq<char>, html: Seq<char>) -> Result<
    Seq<FeedModel>,
    FeedFinderError,
> {
    first_decisive(strategies(base, html))
}

/// The first decisive outcome of a list is the outcome at the first position
/// that decides, and no feed where no position does.
pub proof fn lemma_first_decisive(outcomes: Seq<Result<Seq<FeedModel>, FeedFinderError>>)
    ensures
        decides(first_decisive(outcomes)) ==> exists|k: int|
            {
                &&& 0 <= k < outcomes.len()
                &&& #[trigger] outcomes[k] == first_decisive(outcomes)
                &&& forall|j: int| 0 <= j < k ==> !decides(#[trigger] outcomes[j])
            },
        !decides(first_decisive(outcomes)) ==> {
            &&& first_decisive(outcomes) == nothing()
            &&& forall|j: int| 0 <= j < outcomes.len() ==> !decides(#[trigger] outcomes[j])
        },
    decreases outcomes.len(),
{
    if outcomes.len() > 0 {
        if decides(outcomes[0]) {
            assert(outcomes[0] == first_decisive(outcomes));
        } else {
            let rest = outcomes.drop_first();
            lemma_first_decisive(rest);
            assert forall|j: int| 0 <= j < rest.len() implies rest[j] == outcomes[j + 1] by {}
            if decides(first_decisive(rest)) {
                let k = choose|k: int|
                    {
                        &&& 0 <= k < rest.len()
                        &&& #[trigger] rest[k] == first_decisive(rest)
                        &&& forall|j: int| 0 <= j < k ==> !decides(#[trigger] rest[j])
                    };
                assert(outcomes[k + 1] == first_decisive(outcomes));
                assert forall|j: int| 0 <= j < k + 1 implies !decides(#[trigger] outcomes[j]) by {
                    if j > 0 {
                        assert(rest[j - 1] == outcomes[j]);
                    }
                }
            } else {
                assert forall|j: int| 0 <= j < outcomes.len() implies !decides(
                    #[trigger] outcomes[j],
                ) by {
                    if j > 0 {
                        assert(rest[j - 1] == outcomes[j]);
                    }
                }
            }
        }
    }
}

/// What the declared-link strategy finds is what the detection returns: where
/// it yields a feed, the detection yields exactly its feeds, whatever the
/// later strategies would have found.
pub proof fn lemma_declared_links_first(base: Seq<char>, html: Seq<char>)
    requires
        declared_feeds(base, html) matches Ok(feeds) && feeds.len() > 0,
    ensures
        detected(base, html) == declared_feeds(base, html),
{
}

/// A successful detection returns no feed, or the feeds of exactly one
/// strategy: the first that found any, all earlier ones having found none.
/// Feeds of different strategies are never mixed.
pub proof fn lemma_one_strategy_decides(base: Seq<char>, html: Seq<char>)
    requires
        detected(base, html) matches Ok(feeds) && feeds.len() > 0,
    ensures
        exists|k: int|
            {
                &&& 0 <= k < 4
                &&& #[trigger] strategies(base, html)[k] == detected(base, html)
                &&& forall|j: int| 0 <= j < k ==> #[trigger] strategies(base, html)[j] == nothing()
            },
{
    lemma_strategies(base, html);
}

/// A detection fails where a strategy fails before any has found a feed, and
/// with the error of that strategy; the later strategies play no part.
pub proof fn lemma_first_error_aborts(base: Seq<char>, html: Seq<char>)
    ensures
        detected(base, html) is Err <==> exists|k: int|
            {
                &&& 0 <= k < 4
                &&& (#[trigger] strategies(base, html)[k]) is Err
                &&& forall|j: int| 0 <= j < k ==> #[trigger] strategies(base, html)[j] == nothing()
            },
        detected(base, html) is Err ==> exists|k: int|
            {
                &&& 0 <= k < 4
                &&& #[trigger] strategies(base, html)[k] == detected(base, html)
                &&& forall|j: int| 0 <= j < k ==> #[trigger] strategies(base, html)[j] == nothing()
            },
{
    lemma_strategies(base, html);
}

/// Where no strategy finds a feed and none fails, and only then, the
/// detection succeeds with an empty list.
pub proof fn lemma_nothing_found(base: Seq<char>, html: Seq<char>)
    ensures
        detected(base, html) == nothing() <==> forall|k: int|
            0 <= k < 4 ==> #[trigger] strategies(base, html)[k] == nothing(),
{
    lemma_strategies(base, html);
}

/// The feeds of one detection are of one tier: all of them declared or
/// platform feeds (`Rss`, `Atom`, `Json`), or all of them anchors (`Link`), or
/// all of them guesses (`Guess`).
pub proof fn lemma_one_tier(base: Seq<char>, html: Seq<char>)
    ensures
        detected(base, html) matches Ok(feeds) ==> {
            ||| forall|i: int|
                0 <= i < feeds.len() ==> {
                    ||| (#[trigger] feeds[i]).feed_type == FeedType::Rss
                    ||| feeds[i].feed_type == FeedType::Atom
                    ||| feeds[i].feed_type == FeedType::Json
                }
            ||| forall|i: int|
                0 <= i < feeds.len() ==> (#[trigger] feeds[i]).feed_type == FeedType::Link
            ||| forall|i: int|
                0 <= i < feeds.len() ==> (#[trigger] feeds[i]).feed_type == FeedType::Guess
        },
{
    lemma_strategies(base, html);
    lemma_declared_kinds(base, html);
    lemma_youtube_one_atom(base);
    lemma_anchor_kinds(base, html);
    lemma_guess_kinds(base, html);
}

/// Two detections on the same page have the same outcome: the same feeds in
/// the same order, or the same error.
pub proof fn lemma_detection_repeats(
    base_url: Url,
    html: &str,
    first: Result<Vec<Feed>, FeedFinderError>,
    second: Result<Vec<Feed>, FeedFinderError>,
)
    requires
        outcome_model(first) == detected(base_url@, html@),
        outcome_model(second) == detected(base_url@, html@),
    ensures
        outcome_model(first) == outcome_model(second),
{
}

/// An outcome that does not decide is that of no feed found.
proof fn lemma_undecided(outcome: Result<Seq<FeedModel>, FeedFinderError>)
    requires
        !decides(outcome),
    ensures
        outcome == nothing(),
{
    assert(outcome->Ok_0 =~= Seq::empty());
}

/// The detection is the outcome of the first of the four strategies that
/// decides, and each strategy before it found no feed.
proof fn lemma_strategies(base: Seq<char>, html: Seq<char>)
    ensures
        strategies(base, html).len() == 4,
        forall|k: int|
            0 <= k < 4 && !decides(#[trigger] strategies(base, html)[k]) ==> strategies(
                base,
                html,
            )[k] == nothing(),
        detected(base, html) == if decides(strategies(base, html)[0]) {
            strategies(base, html)[0]
        } else if decides(strategies(base, html)[1]) {
            strategies(base, html)[1]
        } else if decides(strategies(base, html)[2]) {
            strategies(base, html)[2]
        } else if decides(strategies(base, html)[3]) {
            strategies(base, html)[3]
        } else {
            nothing()
        },
{
    reveal_with_fuel(first_decisive, 5);
    assert forall|k: int|
        0 <= k < 4 && !decides(#[trigger] strategies(base, html)[k]) implies strategies(
        base,
        html,
    )[k] == nothing() by {
        lemma_undecided(strategies(base, html)[k]);
    }
}

/// Tells whether the outcome of a strategy ends the detection.
pub fn settles(outcome: &Result<Vec<Feed>, FeedFinderError>) -> (settled: bool)
    ensures
        settled == decides(outcome_model(*outcome)),
{
    match outcome {
        Ok(feeds) => feeds.len() > 0,
        Err(_) => true,
    }
}

/// Finds the candidate feeds of a page, given its markup and the URL it was
/// retrieved from. The strategies are tried in the order of their authority:
/// the first that finds a feed, or fails, decides, and the later ones are not
/// run. Where none finds a feed, the outcome is an empty list.
///
/// The markup may be malformed, and is at most [`MAX_DOCUMENT_CHARS`]
/// characters long. Where the feed has to be guessed and the document is
/// nested too deeply to be searched for a signature, the detection fails with
/// [`FeedFinderError::Select`].
pub fn detect_feeds(base_url: &Url, html: &str) -> (outcome: Result<Vec<Feed>, FeedFinderError>)
    requires
        html@.len() <= MAX_DOCUMENT_CHARS,
    ensures
        outcome_model(outcome) == detected(base_url@, html@),
{
    let finder = FeedFinder::new(base_url, html);
    proof {
        reveal_with_fuel(first_decisive, 5);
    }
    let declared = finder.meta_links();
    if settles(&declared) {
        return declared;
    }
    let platform = finder.youtube();
    if settles(&platform) {
        return platform;
    }
    let anchors = finder.body_links();
    if settles(&anchors) {
        return anchors;
    }
    let guesses = finder.guess();
    if settles(&guesses) {
        return guesses;
    }
    let feeds: Vec<Feed> = Vec::new();
    assert(feed_models(feeds@) =~= Seq::empty());
    Ok(feeds)
}

} // verus!
