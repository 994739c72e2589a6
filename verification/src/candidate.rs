//! References found on a page, before they are resolved against the page's
//! URL.

use crate::feed::{feed_models, outcome_model, Feed, FeedFinderError, FeedModel, FeedType};
use crate::resolver::{url_join, Url};
use vstd::prelude::*;

verus! {

/// What a [`Candidate`] is, as a mathematical value.
pub struct CandidateModel {
    pub reference: Seq<char>,
    pub kind: FeedType,
}

/// A reference to a possible feed, absolute or relative to the page, and how
/// it was found.
#[derive(Debug)]
pub struct Candidate {
    pub reference: String,
    pub kind: FeedType,
}

impl View for Candidate {
    type V = CandidateModel;

    open spec fn view(&self) -> CandidateModel {
        CandidateModel { reference: self.reference@, kind: self.kind }
    }
}

impl PartialEq for Candidate {
    fn eq(&self, other: &Candidate) -> (same: bool) {
        self.reference == other.reference && self.kind == other.kind
    }
}

/// Two candidates are equal where their references and their kinds are.
impl vstd::std_specs::cmp::PartialEqSpecImpl for Candidate {
    open spec fn obeys_eq_spec() -> bool {
        true
    }

    open spec fn eq_spec(&self, other: &Candidate) -> bool {
        self@ == other@
    }
}

/// What a list of candidates is, as a mathematical value.
pub open spec fn candidate_models(candidates: Seq<Candidate>) -> Seq<CandidateModel> {
    candidates.map_values(|candidate: Candidate| candidate@)
}

/// What an optional candidate is, as a mathematical value.
pub open spec fn candidate_view(candidate: Option<Candidate>) -> Option<CandidateModel> {
    match candidate {
        Some(candidate) => Some(candidate@),
        None => None,
    }
}

/// The feed that a candidate becomes once `url_join` has resolved its
/// reference.
pub open spec fn resolved_one(base: Seq<char>, candidate: CandidateModel) -> Result<
    FeedModel,
    FeedFinderError,
> {
    match url_join(base, candidate.reference) {
        Ok(url) => Ok(FeedModel { url, feed_type: candidate.kind }),
        Err(e) => Err(FeedFinderError::Url(e)),
    }
}

/// The feeds that a list of candidates becomes: each reference resolved
/// against `base`, in the order of the list. The first reference that does not
/// resolve makes the whole an error.
pub open spec fn resolved(base: Seq<char>, candidates: Seq<CandidateModel>) -> Result<
    Seq<FeedModel>,
    FeedFinderError,
>
    decreases candidates.len(),
{
    if candidates.len() == 0 {
        Ok(Seq::empty())
    } else {
        match resolved(base, candidates.drop_last()) {
            Err(e) => Err(e),
            Ok(feeds) => match resolved_one(base, candidates.last()) {
                Ok(feed) => Ok(feeds.push(feed)),
                Err(e) => Err(e),
            },
        }
    }
}

/// An error among the first `k` candidates is the error of the whole list.
pub proof fn lemma_resolved_error_stays(base: Seq<char>, candidates: Seq<CandidateModel>, k: int)
    requires
        0 <= k <= candidates.len(),
        resolved(base, candidates.take(k)) is Err,
    ensures
        resolved(base, candidates) == resolved(base, candidates.take(k)),
    decreases candidates.len() - k,
{
    if k == candidates.len() {
        assert(candidates.take(k) =~= candidates);
    } else {
        assert(candidates.take(k + 1).drop_last() =~= candidates.take(k));
        lemma_resolved_error_stays(base, candidates, k + 1);
    }
}

/// Where every reference resolves, there is one feed for each candidate, in
/// the same order, with the candidate's kind; and only then is the outcome a
/// list of feeds.
pub proof fn lemma_resolved_ok(base: Seq<char>, candidates: Seq<CandidateModel>)
    ensures
        resolved(base, candidates) is Ok <==> forall|i: int|
            0 <= i < candidates.len() ==> url_join(base, (#[trigger] candidates[i]).reference)
                is Ok,
        resolved(base, candidates) matches Ok(feeds) ==> {
            &&& feeds.len() == candidates.len()
            &&& forall|i: int|
                0 <= i < feeds.len() ==> resolved_one(base, candidates[i]) == Ok::<
                    FeedModel,
                    FeedFinderError,
                >(#[trigger] feeds[i])
        },
    decreases candidates.len(),
{
    if candidates.len() > 0 {
        let front = candidates.drop_last();
        lemma_resolved_ok(base, front);
        assert forall|i: int| 0 <= i < front.len() implies front[i] == candidates[i] by {}
    }
}

/// Where some reference does not resolve, the outcome is the error of the
/// first such reference.
pub proof fn lemma_resolved_err(base: Seq<char>, candidates: Seq<CandidateModel>)
    ensures
        resolved(base, candidates) matches Err(e) ==> exists|i: int|
            {
                &&& 0 <= i < candidates.len()
                &&& #[trigger] resolved_one(base, candidates[i]) == Err::<
                    FeedModel,
                    FeedFinderError,
                >(e)
                &&& forall|j: int|
                    0 <= j < i ==> url_join(base, (#[trigger] candidates[j]).reference) is Ok
            },
    decreases candidates.len(),
{
    if candidates.len() > 0 {
        let front = candidates.drop_last();
        lemma_resolved_err(base, front);
        lemma_resolved_ok(base, front);
        assert forall|i: int| 0 <= i < front.len() implies front[i] == candidates[i] by {}
        if resolved(base, front) is Ok && resolved(base, candidates) is Err {
            let last = candidates.len() - 1;
            assert(resolved_one(base, candidates[last]) is Err);
        }
    }
}

/// Resolving keeps the kinds: where every candidate of a list is of one of
/// the `kinds`, so is every feed that the list resolves to.
pub proof fn lemma_resolved_kinds(
    base: Seq<char>,
    candidates: Seq<CandidateModel>,
    kinds: Set<FeedType>,
)
    requires
        forall|i: int| 0 <= i < candidates.len() ==> kinds.contains((#[trigger] candidates[i]).kind),
    ensures
        resolved(base, candidates) matches Ok(feeds) ==> forall|i: int|
            0 <= i < feeds.len() ==> kinds.contains((#[trigger] feeds[i]).feed_type),
{
    lemma_resolved_ok(base, candidates);
}

/// Resolves each candidate's reference against `base_url`, in order, and stops
/// at the first that does not resolve.
pub fn resolve(base_url: &Url, candidates: &Vec<Candidate>) -> (outcome: Result<
    Vec<Feed>,
    FeedFinderError,
>)
    ensures
        outcome_model(outcome) == resolved(base_url@, candidate_models(candidates@)),
{
    let ghost all = candidate_models(candidates@);
    let mut feeds: Vec<Feed> = Vec::new();
    let mut i: usize = 0;
    assert(feed_models(feeds@) =~= Seq::empty());
    while i < candidates.len()
        invariant
            i <= candidates.len(),
            all == candidate_models(candidates@),
            resolved(base_url@, all.take(i as int)) == Ok::<Seq<FeedModel>, FeedFinderError>(
                feed_models(feeds@),
            ),
        decreases candidates.len() - i,
    {
        let candidate = &candidates[i];
        assert(all.take(i + 1).drop_last() =~= all.take(i as int));
        match base_url.join(candidate.reference.as_str()) {
            Ok(url) => {
                let ghost before = feed_models(feeds@);
                feeds.push(Feed::new(url, candidate.kind));
                assert(feed_models(feeds@) =~= before.push(
                    FeedModel { url: url@, feed_type: candidate.kind },
                ));
            },
            Err(e) => {
                proof {
                    lemma_resolved_error_stays(base_url@, all, i + 1);
                }
                return Err(e);
            },
        }
        i += 1;
    }
    assert(all.take(i as int) =~= all);
    Ok(feeds)
}

} // verus!
