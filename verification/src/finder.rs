//! The inputs of one detection.

use crate::page::MAX_DOCUMENT_CHARS;
use crate::resolver::Url;
use vstd::prelude::*;

verus! {

/// A page to search for feeds: its markup, and the URL it was retrieved from.
pub struct FeedFinder<'a> {
    html: &'a str,
    base_url: &'a Url,
}

impl<'a> FeedFinder<'a> {
    /// The markup is within what the parser can hold.
    #[verifier::type_invariant]
    spec fn holds(self) -> bool {
        self.html@.len() <= MAX_DOCUMENT_CHARS
    }

    /// The URL of the page.
    pub closed spec fn base(self) -> Seq<char> {
        self.base_url@
    }

    /// The markup of the page.
    pub closed spec fn markup(self) -> Seq<char> {
        self.html@
    }

    /// Takes the markup of a page and the URL it was retrieved from.
    pub fn new(base_url: &'a Url, html: &'a str) -> (finder: FeedFinder<'a>)
        requires
            html@.len() <= MAX_DOCUMENT_CHARS,
        ensures
            finder.base() == base_url@,
            finder.markup() == html@,
    {
        FeedFinder { html, base_url }
    }

    /// The URL of the page.
    pub fn base_url(&self) -> (base_url: &'a Url)
        ensures
            base_url@ == self.base(),
    {
        self.base_url
    }

    /// The markup of the page.
    pub fn html(&self) -> (html: &'a str)
        ensures
            html@ == self.markup(),
            html@.len() <= MAX_DOCUMENT_CHARS,
    {
        proof {
            use_type_invariant(self);
        }
        self.html
    }
}

} // verus!
