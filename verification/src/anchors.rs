//! Feeds that a page links to from its body: anchors whose target looks like a
//! feed.

use crate::candidate::{
    candidate_models, candidate_view, lemma_resolved_kinds, resolve, resolved, Candidate,
    CandidateModel,
};
use crate::declared::HREF_ATTRIBUTE;
use crate::feed::{outcome_model, Feed, FeedFinderError, FeedModel, FeedType};
use crate::finder::FeedFinder;
use crate::page::{select, selected};
use crate::text::{chars_of, occurs, occurs_in};
use vstd::prelude::*;

verus! {

/// The CSS selector of the anchors in the body of a page.
pub const ANCHOR_SELECTOR: &'static str = "body a";

/// Whether a reference looks like that of a feed: it holds one of the words
/// `feed`, `xml`, `rss` and `atom`, in lower case.
pub open spec fn might_be_feed(href: Seq<char>) -> bool {
    ||| occurs_in("feed"@, href)
    ||| occurs_in("xml"@, href)
    ||| occurs_in("rss"@, href)
    ||| occurs_in("atom"@, href)
}

/// The candidate that an anchor makes, given the value of its `href`
/// attribute: one where the attribute is present and looks like the
/// reference of a feed. An anchor makes one candidate at most, however many
/// of the words its reference holds.
pub open spec fn anchor_candidate(row: Seq<Option<Seq<char>>>) -> Option<CandidateModel> {
    if row.len() == 1 && row[0] is Some && might_be_feed(row[0]->0) {
        Some(CandidateModel { reference: row[0]->0, kind: FeedType::Link })
    } else {
        None
    }
}

/// The candidates that a page's anchors make, in document order. Nothing is
/// left out for occurring twice.
pub open spec fn anchor_candidates(rows: Seq<Seq<Option<Seq<char>>>>) -> Seq<CandidateModel> {
    rows.filter_map(|row: Seq<Option<Seq<char>>>| anchor_candidate(row))
}

/// What the body-anchor strategy yields for the markup `html` of a page
/// retrieved from `base`.
pub open spec fn anchor_feeds(base: Seq<char>, html: Seq<char>) -> Result<
    Seq<FeedModel>,
    FeedFinderError,
> {
    match selected(html, ANCHOR_SELECTOR@, seq![HREF_ATTRIBUTE@]) {
        Ok(rows) => resolved(base, anchor_candidates(rows)),
        Err(e) => Err(e),
    }
}

/// A feed found by an anchor is of type `Link`.
pub proof fn lemma_anchor_kinds(base: Seq<char>, html: Seq<char>)
    ensures
        anchor_feeds(base, html) matches Ok(feeds) ==> forall|i: int|
            0 <= i < feeds.len() ==> (#[trigger] feeds[i]).feed_type == FeedType::Link,
{
    if let Ok(rows) = selected(html, ANCHOR_SELECTOR@, seq![HREF_ATTRIBUTE@]) {
        let pick = |row: Seq<Option<Seq<char>>>| anchor_candidate(row);
        let candidates = anchor_candidates(rows);
        let kinds = set![FeedType::Link];
        assert forall|i: int| 0 <= i < candidates.len() implies kinds.contains(
            (#[trigger] candidates[i]).kind,
        ) by {
            rows.lemma_filter_map_contains(pick, candidates[i]);
        }
        lemma_resolved_kinds(base, candidates, kinds);
    }
}

/// Tells whether a reference looks like that of a feed.
pub fn looks_like_feed(href: &str) -> (found: bool)
    ensures
        found == might_be_feed(href@),
{
    let text = chars_of(href);
    occurs(&chars_of("feed"), &text) || occurs(&chars_of("xml"), &text) || occurs(
        &chars_of("rss"),
        &text,
    ) || occurs(&chars_of("atom"), &text)
}

/// The candidate that an anchor makes, given the value of its `href`
/// attribute.
pub fn anchor_candidate_of(row: &Vec<Option<String>>) -> (candidate: Option<Candidate>)
    ensures
        candidate_view(candidate) == anchor_candidate(row.deep_view()),
{
    if row.len() != 1 {
        return None;
    }
    match &row[0] {
        Some(href) => {
            if looks_like_feed(href.as_str()) {
                Some(Candidate { reference: href.clone(), kind: FeedType::Link })
            } else {
                None
            }
        },
        None => None,
    }
}

/// The candidates that a page's anchors make, in document order.
pub fn anchor_candidates_of(rows: &Vec<Vec<Option<String>>>) -> (candidates: Vec<Candidate>)
    ensures
        candidate_models(candidates@) == anchor_candidates(rows.deep_view()),
{
    let ghost all = rows.deep_view();
    let ghost pick = |row: Seq<Option<Seq<char>>>| anchor_candidate(row);
    let mut candidates: Vec<Candidate> = Vec::new();
    let mut i: usize = 0;
    while i < rows.len()
        invariant
            i <= rows.len(),
            all == rows.deep_view(),
            pick == |row: Seq<Option<Seq<char>>>| anchor_candidate(row),
            candidate_models(candidates@) == all.take(i as int).filter_map(pick),
        decreases rows.len() - i,
    {
        proof {
            all.lemma_filter_map_take_succ(pick, i as int);
        }
        if let Some(candidate) = anchor_candidate_of(&rows[i]) {
            candidates.push(candidate);
        }
        i += 1;
    }
    assert(all.take(i as int) =~= all);
    candidates
}

impl<'a> FeedFinder<'a> {
    /// The targets of the page's anchors that look like feeds, in document
    /// order.
    pub fn body_links(&self) -> (outcome: Result<Vec<Feed>, FeedFinderError>)
        ensures
            outcome_model(outcome) == anchor_feeds(self.base(), self.markup()),
    {
        let names = vec![HREF_ATTRIBUTE];
        assert(names.deep_view() =~= seq![HREF_ATTRIBUTE@]);
        match select(self.html(), ANCHOR_SELECTOR, &names) {
            Ok(rows) => {
                let candidates = anchor_candidates_of(&rows);
                resolve(self.base_url(), &candidates)
            },
            Err(e) => Err(e),
        }
    }
}

} // verus!
