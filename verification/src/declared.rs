//! Feeds that a page declares: its alternate links with a feed's MIME type.

use crate::candidate::{
    candidate_models, candidate_view, lemma_resolved_kinds, resolve, resolved, Candidate,
    CandidateModel,
};
use crate::feed::{outcome_model, Feed, FeedFinderError, FeedModel, FeedType};
use crate::finder::FeedFinder;
use crate::page::{select, selected};
use crate::text::same_text;
use vstd::prelude::*;

verus! {

/// The CSS selector of the elements that declare an alternate form of the
/// page.
pub const ALTERNATE_SELECTOR: &'static str = "link[rel='alternate'], meta[rel='alternate']";

/// The attribute that holds the MIME type of the alternate form.
pub const TYPE_ATTRIBUTE: &'static str = "type";

/// The attribute that holds a reference.
pub const HREF_ATTRIBUTE: &'static str = "href";

/// The feed format that a MIME type stands for, if it stands for one.
pub open spec fn declared_type(mime: Seq<char>) -> Option<FeedType> {
    if mime == "application/rss+xml"@ {
        Some(FeedType::Rss)
    } else if mime == "application/atom+xml"@ {
        Some(FeedType::Atom)
    } else if mime == "application/json"@ {
        Some(FeedType::Json)
    } else {
        None
    }
}

/// The candidate that an alternate link makes, given the values of its `type`
/// and `href` attributes in this order: one where both are present and the
/// type is that of a feed.
pub open spec fn declared_candidate(row: Seq<Option<Seq<char>>>) -> Option<CandidateModel> {
    if row.len() == 2 && row[0] is Some && row[1] is Some {
        match declared_type(row[0]->0) {
            Some(kind) => Some(CandidateModel { reference: row[1]->0, kind }),
            None => None,
        }
    } else {
        None
    }
}

/// The candidates that a page's alternate links make, in document order.
pub open spec fn declared_candidates(rows: Seq<Seq<Option<Seq<char>>>>) -> Seq<CandidateModel> {
    rows.filter_map(|row: Seq<Option<Seq<char>>>| declared_candidate(row))
}

/// What the declared-link strategy yields for the markup `html` of a page
/// retrieved from `base`.
pub open spec fn declared_feeds(base: Seq<char>, html: Seq<char>) -> Result<
    Seq<FeedModel>,
    FeedFinderError,
> {
    match selected(html, ALTERNATE_SELECTOR@, seq![TYPE_ATTRIBUTE@, HREF_ATTRIBUTE@]) {
        Ok(rows) => resolved(base, declared_candidates(rows)),
        Err(e) => Err(e),
    }
}

/// A declared feed is of type `Rss`, `Atom` or `Json`.
pub proof fn lemma_declared_kinds(base: Seq<char>, html: Seq<char>)
    ensures
        declared_feeds(base, html) matches Ok(feeds) ==> forall|i: int|
            0 <= i < feeds.len() ==> {
                ||| (#[trigger] feeds[i]).feed_type == FeedType::Rss
                ||| feeds[i].feed_type == FeedType::Atom
                ||| feeds[i].feed_type == FeedType::Json
            },
{
    if let Ok(rows) = selected(html, ALTERNATE_SELECTOR@, seq![TYPE_ATTRIBUTE@, HREF_ATTRIBUTE@]) {
        let pick = |row: Seq<Option<Seq<char>>>| declared_candidate(row);
        let candidates = declared_candidates(rows);
        let kinds = set![FeedType::Rss, FeedType::Atom, FeedType::Json];
        assert forall|i: int| 0 <= i < candidates.len() implies kinds.contains(
            (#[trigger] candidates[i]).kind,
        ) by {
            rows.lemma_filter_map_contains(pick, candidates[i]);
        }
        lemma_resolved_kinds(base, candidates, kinds);
    }
}

/// Tells which feed format a MIME type stands for.
pub fn declared_type_of(mime: &str) -> (kind: Option<FeedType>)
    ensures
        kind == declared_type(mime@),
{
    if same_text(mime, "application/rss+xml") {
        Some(FeedType::Rss)
    } else if same_text(mime, "application/atom+xml") {
        Some(FeedType::Atom)
    } else if same_text(mime, "application/json") {
        Some(FeedType::Json)
    } else {
        None
    }
}

/// The candidate that an alternate link makes, given the values of its `type`
/// and `href` attributes in this order.
pub fn declared_candidate_of(row: &Vec<Option<String>>) -> (candidate: Option<Candidate>)
    ensures
        candidate_view(candidate) == declared_candidate(row.deep_view()),
{
    if row.len() != 2 {
        return None;
    }
    match (&row[0], &row[1]) {
        (Some(mime), Some(href)) => match declared_type_of(mime.as_str()) {
            Some(kind) => Some(Candidate { reference: href.clone(), kind }),
            None => None,
        },
        _ => None,
    }
}

/// The candidates that a page's alternate links make, in document order.
pub fn declared_candidates_of(rows: &Vec<Vec<Option<String>>>) -> (candidates: Vec<Candidate>)
    ensures
        candidate_models(candidates@) == declared_candidates(rows.deep_view()),
{
    let ghost all = rows.deep_view();
    let ghost pick = |row: Seq<Option<Seq<char>>>| declared_candidate(row);
    let mut candidates: Vec<Candidate> = Vec::new();
    let mut i: usize = 0;
    while i < rows.len()
        invariant
            i <= rows.len(),
            all == rows.deep_view(),
            pick == |row: Seq<Option<Seq<char>>>| declared_candidate(row),
            candidate_models(candidates@) == all.take(i as int).filter_map(pick),
        decreases rows.len() - i,
    {
        proof {
            all.lemma_filter_map_take_succ(pick, i as int);
        }
        if let Some(candidate) = declared_candidate_of(&rows[i]) {
            candidates.push(candidate);
        }
        i += 1;
    }
    assert(all.take(i as int) =~= all);
    candidates
}

impl<'a> FeedFinder<'a> {
    /// The feeds that the page declares with alternate links, in document
    /// order.
    pub fn meta_links(&self) -> (outcome: Result<Vec<Feed>, FeedFinderError>)
        ensures
            outcome_model(outcome) == declared_feeds(self.base(), self.markup()),
    {
        let names = vec![TYPE_ATTRIBUTE, HREF_ATTRIBUTE];
        assert(names.deep_view() =~= seq![TYPE_ATTRIBUTE@, HREF_ATTRIBUTE@]);
        match select(self.html(), ALTERNATE_SELECTOR, &names) {
            Ok(rows) => {
                let candidates = declared_candidates_of(&rows);
                resolve(self.base_url(), &candidates)
            },
            Err(e) => Err(e),
        }
    }
}

} // verus!
