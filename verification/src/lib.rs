//! Discovery of candidate syndication feeds (RSS, Atom, JSON Feed) for a web
//! page, from the page's markup and its address.
//!
//! Nothing here touches the network: the caller supplies the markup and the
//! address it came from, and probes the returned candidates itself.
//!
//! [`detect_feeds`] tries four strategies in the order of their authority and
//! returns what the first of them finds: the feeds that the page declares
//! ([`declared`]), the feed of a YouTube page ([`youtube`]), the anchors of the
//! body that look like feeds ([`anchors`]), and guesses from the software that
//! generated the page ([`guess`]). URLs are parsed and resolved by the `url`
//! crate ([`resolver`]) and the markup is read by the `kuchiki` crate
//! ([`page`]); what these return is named, not restated, so every contract
//! that rests on them says so.

pub mod anchors;
pub mod candidate;
pub mod declared;
pub mod detect;
pub mod feed;
pub mod finder;
pub mod guess;
pub mod page;
pub mod resolver;
pub mod text;
pub mod youtube;

pub use crate::detect::detect_feeds;
pub use crate::feed::{Feed, FeedFinderError, FeedModel, FeedType};
pub use crate::finder::FeedFinder;
pub use crate::page::{MAX_DOCUMENT_CHARS, MAX_DOCUMENT_DEPTH};
pub use crate::resolver::Url;
