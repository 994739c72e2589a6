//! The page's markup as the `kuchiki` crate reads it.

use crate::feed::FeedFinderError;
use kuchiki::traits::TendrilSink;
use vstd::prelude::*;

verus! {

/// The longest markup, in characters, that is handed to the parser: a twelfth
/// of `u32::MAX`. The parser keeps text in buffers whose length in bytes is a
/// `u32` and fails where one grows beyond that; a character takes up to four
/// bytes, and the parser may put a replacement character of three bytes in the
/// place of a character of one.
pub const MAX_DOCUMENT_CHARS: usize = 0x1555_5555;

/// For the document that `kuchiki` parses from `html`: the elements that match
/// the CSS selector `selector`, in document order, each given by the values of
/// its attributes of the names `names`, those without a namespace (`None`
/// where the element has no such attribute). `None` where `kuchiki` does not
/// accept the selector.
pub uninterp spec fn html_select(
    html: Seq<char>,
    selector: Seq<char>,
    names: Seq<Seq<char>>,
) -> Option<Seq<Seq<Option<Seq<char>>>>>;

/// The text that `kuchiki` writes for the document it parses from `html`.
pub uninterp spec fn html_text(html: Seq<char>) -> Seq<char>;

/// The deepest nesting of a document that is written out as text. `kuchiki`
/// writes a document out by a function that calls itself once for each level
/// of nesting, so a document that is nested without end would use up the stack
/// of the thread. This many calls, of some hundred bytes each, stay far below
/// the two megabytes that a thread has by default.
pub const MAX_DOCUMENT_DEPTH: usize = 512;

/// Where a walk through a document stands at a node: at its start, before its
/// children, or at its end, after them.
#[derive(Debug, PartialEq, Eq, Clone, Copy, Structural)]
pub enum Edge {
    Start,
    End,
}

/// For the document that `kuchiki` parses from `html`: the start and the end
/// of each node, the document itself included, in the order in which
/// `NodeRef::traverse_inclusive` passes them.
pub uninterp spec fn html_edges(html: Seq<char>) -> Seq<Edge>;

/// How many nodes are open after a walk along `edges`: those that have
/// started and not ended. An end with nothing open counts for nothing.
pub open spec fn open_after(edges: Seq<Edge>) -> nat
    decreases edges.len(),
{
    if edges.len() == 0 {
        0
    } else {
        let before = open_after(edges.drop_last());
        match edges.last() {
            Edge::Start => before + 1,
            Edge::End => if before > 0 {
                (before - 1) as nat
            } else {
                0
            },
        }
    }
}

/// The deepest nesting on a walk along `edges`: the most nodes that are open
/// at any point of it.
pub open spec fn deepest(edges: Seq<Edge>) -> nat
    decreases edges.len(),
{
    if edges.len() == 0 {
        0
    } else if deepest(edges.drop_last()) >= open_after(edges) {
        deepest(edges.drop_last())
    } else {
        open_after(edges)
    }
}

/// Whether the document that `html` parses to is nested too deeply to be
/// written out as text.
pub open spec fn too_deep(html: Seq<char>) -> bool {
    deepest(html_edges(html)) > MAX_DOCUMENT_DEPTH
}

/// At no point of a walk are more nodes open than its deepest nesting, and at
/// some point as many are; and no more are ever open than edges were passed.
pub proof fn lemma_deepest(edges: Seq<Edge>)
    ensures
        forall|n: int| 0 <= n <= edges.len() ==> open_after(#[trigger] edges.take(n)) <= deepest(edges),
        exists|n: int| 0 <= n <= edges.len() && open_after(#[trigger] edges.take(n)) == deepest(edges),
        open_after(edges) <= edges.len(),
        deepest(edges) <= edges.len(),
    decreases edges.len(),
{
    if edges.len() == 0 {
        assert(edges.take(0) =~= edges);
    } else {
        let front = edges.drop_last();
        lemma_deepest(front);
        assert(edges.take(edges.len() as int) =~= edges);
        assert forall|n: int| 0 <= n <= edges.len() implies open_after(#[trigger] edges.take(n))
            <= deepest(edges) by {
            if n < edges.len() {
                assert(edges.take(n) =~= front.take(n));
            }
        }
        if deepest(front) >= open_after(edges) {
            let n = choose|n: int|
                0 <= n <= front.len() && open_after(#[trigger] front.take(n)) == deepest(front);
            assert(edges.take(n) =~= front.take(n));
        }
    }
}

/// The view of the rows that `kuchiki` hands out.
pub open spec fn rows_view(r: Option<Vec<Vec<Option<String>>>>) -> Option<
    Seq<Seq<Option<Seq<char>>>>,
> {
    match r {
        Some(rows) => Some(rows.deep_view()),
        None => None,
    }
}

/// What [`select`] returns for a result of `kuchiki`.
pub open spec fn selected(
    html: Seq<char>,
    selector: Seq<char>,
    names: Seq<Seq<char>>,
) -> Result<Seq<Seq<Option<Seq<char>>>>, FeedFinderError> {
    match html_select(html, selector, names) {
        Some(rows) => Ok(rows),
        None => Err(FeedFinderError::Select),
    }
}

/// The view of what [`select`] returns.
pub open spec fn selection(r: Result<Vec<Vec<Option<String>>>, FeedFinderError>) -> Result<
    Seq<Seq<Option<Seq<char>>>>,
    FeedFinderError,
> {
    match r {
        Ok(rows) => Ok(rows.deep_view()),
        Err(e) => Err(e),
    }
}

/// Parses `html` with `kuchiki::parse_html`, runs `NodeRef::select` with
/// `selector` on the document and reads the attributes `names` of each match
/// with `Attributes::get`. The matches come in document order, one row for
/// each; there are none where `select` fails, which it does where the
/// selector does not compile. Taken on trust: that the outcome depends on the
/// three arguments alone, which is all that naming it [`html_select`] says,
/// and that the parser does not fail on markup within the limit.
#[verifier::external_body]
fn select_attributes(html: &str, selector: &str, names: &Vec<&str>) -> (r: Option<
    Vec<Vec<Option<String>>>,
>)
    requires
        html@.len() <= MAX_DOCUMENT_CHARS,
    ensures
        rows_view(r) == html_select(html@, selector@, names.deep_view()),
{
    let document = kuchiki::parse_html().one(html);
    let matches = document.select(selector).ok()?;
    let read = |element: kuchiki::NodeDataRef<kuchiki::ElementData>| -> Vec<Option<String>> {
        let attributes = element.attributes.borrow();
        names.iter().map(|name| attributes.get(*name).map(String::from)).collect()
    };
    Some(matches.map(read).collect())
}

/// The elements of the document `html` that match the CSS selector
/// `selector`, in document order, each given by the values of its attributes
/// `names`.
pub fn select(html: &str, selector: &str, names: &Vec<&str>) -> (r: Result<
    Vec<Vec<Option<String>>>,
    FeedFinderError,
>)
    requires
        html@.len() <= MAX_DOCUMENT_CHARS,
    ensures
        selection(r) == selected(html@, selector@, names.deep_view()),
{
    match select_attributes(html, selector, names) {
        Some(rows) => Ok(rows),
        None => Err(FeedFinderError::Select),
    }
}

/// Parses `html` with `kuchiki::parse_html`, walks the document with
/// `NodeRef::traverse_inclusive`, which goes from node to node in a loop, and
/// tells for each edge whether it is a start or an end. Taken on trust: that
/// the outcome depends on the markup alone, which is all that naming it
/// [`html_edges`] says, and that the parser does not fail on markup within
/// the limit.
#[verifier::external_body]
fn edges_of(html: &str) -> (edges: Vec<Edge>)
    requires
        html@.len() <= MAX_DOCUMENT_CHARS,
    ensures
        edges@ == html_edges(html@),
{
    let document = kuchiki::parse_html().one(html);
    let tell = |edge: kuchiki::iter::NodeEdge<kuchiki::NodeRef>| match edge {
        kuchiki::iter::NodeEdge::Start(_) => Edge::Start,
        kuchiki::iter::NodeEdge::End(_) => Edge::End,
    };
    document.traverse_inclusive().map(tell).collect()
}

/// The deepest nesting on a walk along `edges`.
pub fn deepest_of(edges: &Vec<Edge>) -> (depth: usize)
    ensures
        depth == deepest(edges@),
{
    let mut open: usize = 0;
    let mut depth: usize = 0;
    let mut i: usize = 0;
    assert(edges@.take(0) =~= Seq::empty());
    while i < edges.len()
        invariant
            i <= edges.len(),
            open == open_after(edges@.take(i as int)),
            depth == deepest(edges@.take(i as int)),
            open <= i,
        decreases edges.len() - i,
    {
        assert(edges@.take(i + 1).drop_last() =~= edges@.take(i as int));
        match edges[i] {
            Edge::Start => {
                open += 1;
            },
            Edge::End => {
                if open > 0 {
                    open -= 1;
                }
            },
        }
        if open > depth {
            depth = open;
        }
        i += 1;
    }
    assert(edges@.take(i as int) =~= edges@);
    depth
}

/// How deeply the document that `html` parses to is nested: the most nodes
/// that lie in one another, the document itself counted.
pub fn nesting(html: &str) -> (depth: usize)
    requires
        html@.len() <= MAX_DOCUMENT_CHARS,
    ensures
        depth == deepest(html_edges(html@)),
{
    deepest_of(&edges_of(html))
}

/// Parses `html` with `kuchiki::parse_html` and writes the document out again
/// with `NodeRef::to_string`, which calls itself once for each level of
/// nesting: documents nested more deeply than [`MAX_DOCUMENT_DEPTH`] are left
/// out. Taken on trust: that the outcome depends on the markup alone, which
/// is all that naming it [`html_text`] says, that the parser does not fail on
/// markup within the limit, and that the stack of the thread holds that many
/// calls.
#[verifier::external_body]
pub(crate) fn serialize(html: &str) -> (text: String)
    requires
        html@.len() <= MAX_DOCUMENT_CHARS,
        !too_deep(html@),
    ensures
        text@ == html_text(html@),
{
    kuchiki::parse_html().one(html).to_string()
}

/// The text of the document that `html` parses to; none for a document that is
/// nested too deeply to be written out.
pub fn text_of(html: &str) -> (text: Option<String>)
    requires
        html@.len() <= MAX_DOCUMENT_CHARS,
    ensures
        crate::resolver::text_view(text) == if too_deep(html@) {
            None
        } else {
            Some(html_text(html@))
        },
{
    if nesting(html) > MAX_DOCUMENT_DEPTH {
        None
    } else {
        Some(serialize(html))
    }
}

} // verus!
