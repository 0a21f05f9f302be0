//! Link-preview metadata retrieval with crawler-policy enforcement.
//!
//! The library resolves a site's crawler-policy file, decides whether the
//! fixed agent identifier may fetch a URL, and extracts title, description
//! and preview image from a fetched HTML document, preferring Open Graph
//! Protocol tags and falling back to standard HTML tags per field.
//!
//! Network transport is left to the caller: the verified entry points here
//! take the retrieved documents (or the outcome of trying to retrieve them)
//! as plain values and state exactly what is decided or extracted.

use vstd::prelude::*;

pub mod extract;
pub mod metadata;
pub mod pipeline;
pub mod robots;

pub use extract::extract_metadata;
pub use metadata::Metadata;
pub use pipeline::page_metadata;
pub use pipeline::PageOutcome;
pub use robots::check_policy;
pub use robots::resolve_robots_url;

verus! {

/// Agent identifier sent with every outbound request and matched against
/// crawler-policy rules. The same constant serves both uses so that the
/// agent that checks the policy is the agent that fetches.
pub const USER_AGENT: &'static str = "MetaFetcher/1.0";

/// The ways a metadata fetch can fail. Extraction itself never fails:
/// a document without recognisable tags yields absent fields, not an error.
#[derive(Debug, Clone, Copy, PartialEq, Eq, Structural)]
pub enum FetchError {
    /// The input URL is not a well-formed absolute http(s) URL.
    InvalidUrl,
    /// Transport-level failure while fetching the page.
    NetworkError,
    /// The page fetch answered with a non-success HTTP status.
    HttpError(u16),
    /// The page body could not be decoded as text.
    DecodeError,
    /// The policy document was retrieved but could not be parsed.
    PolicyParseError,
    /// The site's crawler policy forbids fetching this URL for this agent.
    RobotsDisallowed,
}

} // verus!
