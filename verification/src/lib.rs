//! Strips tracking parameters from the query of a URL.
//!
//! A cleaner holds a redirect policy, an ordered list of reserve rules and a
//! user agent. Cleaning a URL may first resolve one hop of a redirect, if
//! the policy allows the URL and its host can be found, and then rewrites
//! the query: the first rule whose pattern matches the URL decides which
//! parameters stay, and a URL that no rule matches loses its query.
//!
//! The library does no input or output. It decides each step of a cleaning
//! and leaves the lookup of a host and the probe request to its caller, who
//! hands back what came of them.
//!
//! - `cleaner`: the cleaner, its builder, and the steps it decides.
//! - `steps`: the steps and the answers of the network.
//! - `policy`: the redirect policy.
//! - `rules`: the reserve rules and the search for the first match.
//! - `query`: which pairs of a query are kept, and how they are written.
//! - `text`: comparisons of text and the reading of a header value.
//! - `urls`, `patterns`: what is assumed of `url::Url` and `regex::Regex`.

pub mod cleaner;
pub mod patterns;
pub mod policy;
pub mod query;
pub mod rules;
pub mod steps;
pub mod text;
pub mod urls;

pub use cleaner::{UrlTrackCleaner, UrlTrackCleanerBuilder};
pub use policy::RedirectPolicy;
pub use rules::ReserveRule;
