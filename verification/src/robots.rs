//! Crawler-policy resolution and enforcement.
//!
//! Resolution turns a target URL into its site's canonical policy-file
//! location without touching the network. Enforcement takes the outcome of
//! retrieving that file and decides whether the page fetch may proceed:
//! a policy that could not be retrieved imposes no restrictions, a policy
//! that was retrieved but cannot be parsed is an error, and a parsed policy
//! decides through its rules for the fixed agent identifier.

use vstd::prelude::*;

use crate::FetchError;
use crate::USER_AGENT;

verus! {

/// The canonical policy-file location for the origin of `url`, or `None`
/// when `url` is not a well-formed absolute http(s) URL.
pub uninterp spec fn robots_url_of(url: Seq<char>) -> Option<Seq<char>>;

/// Whether a retrieved policy document parses for the given agent.
pub uninterp spec fn policy_parses(agent: Seq<char>, policy: Seq<char>) -> bool;

/// The verdict of a parsed policy document: whether `url` may be fetched
/// by `agent` under the document's rules. Rules scoped to the agent
/// override wildcard rules; an unmatched URL is allowed by default.
pub uninterp spec fn policy_allows(agent: Seq<char>, policy: Seq<char>, url: Seq<char>) -> bool;

/// Relies on texting_robots::get_robots_url: for a well-formed absolute
/// http(s) URL it returns the origin's well-known policy-file location and
/// for any other input it fails; the result depends on the URL alone.
#[verifier::external_body]
fn robots_url_for(url: &str) -> (r: Option<String>)
    ensures
        r.deep_view() == robots_url_of(url@),
{
    texting_robots::get_robots_url(url).ok()
}

/// Relies on texting_robots::Robot::new, which fails exactly when the
/// policy text cannot be parsed, and texting_robots::Robot::allowed, which
/// gives the verdict for `url` under the rules selected for `agent`. Both
/// results depend on the arguments alone.
#[verifier::external_body]
fn evaluate_policy(agent: &str, policy: &str, url: &str) -> (r: Option<bool>)
    ensures
        r is Some <==> policy_parses(agent@, policy@),
        r matches Some(b) ==> b == policy_allows(agent@, policy@, url@),
{
    match texting_robots::Robot::new(agent, policy.as_bytes()) {
        Ok(robot) => Some(robot.allowed(url)),
        Err(_) => None,
    }
}

/// Derive the policy-file URL for the origin of `url`. Pure URL
/// transformation: no network activity happens here, and a malformed
/// input fails with `InvalidUrl` before any request could be issued.
pub fn resolve_robots_url(url: &str) -> (r: Result<String, FetchError>)
    ensures
        r is Ok <==> robots_url_of(url@) is Some,
        r matches Ok(p) ==> robots_url_of(url@) == Some(p@),
        r matches Err(e) ==> e == FetchError::InvalidUrl,
{
    match robots_url_for(url) {
        Some(p) => Ok(p),
        None => Err(FetchError::InvalidUrl),
    }
}

/// What the policy check decides for `url` given the outcome of retrieving
/// the policy document: `None` (retrieval failed) imposes no restrictions,
/// an unparseable document is a `PolicyParseError`, and a parsed document
/// that denies the fixed agent is a `RobotsDisallowed`.
pub open spec fn policy_decision(url: Seq<char>, policy: Option<Seq<char>>) -> Result<
    (),
    FetchError,
> {
    match policy {
        None => Ok(()),
        Some(text) => if !policy_parses(USER_AGENT@, text) {
            Err(FetchError::PolicyParseError)
        } else if !policy_allows(USER_AGENT@, text, url) {
            Err(FetchError::RobotsDisallowed)
        } else {
            Ok(())
        },
    }
}

/// Decide whether `url` may be fetched, given the retrieved policy document
/// (`None` when the document could not be retrieved). The page must not be
/// fetched unless this returns `Ok`.
pub fn check_policy(url: &str, policy: Option<&str>) -> (r: Result<(), FetchError>)
    ensures
        r == policy_decision(url@, policy.deep_view()),
{
    match policy {
        None => Ok(()),
        Some(text) => match evaluate_policy(USER_AGENT, text, url) {
            None => Err(FetchError::PolicyParseError),
            Some(true) => Ok(()),
            Some(false) => Err(FetchError::RobotsDisallowed),
        },
    }
}

/// A policy document that parses and denies the fixed agent for a URL is
/// always surfaced as `RobotsDisallowed`: the caller never reaches the
/// page fetch for such a URL.
pub proof fn lemma_denial_is_surfaced(url: Seq<char>, policy: Seq<char>)
    requires
        policy_parses(USER_AGENT@, policy),
        !policy_allows(USER_AGENT@, policy, url),
    ensures
        policy_decision(url, Some(policy)) == Err::<(), FetchError>(FetchError::RobotsDisallowed),
{
}

/// A policy document that could not be retrieved restricts nothing: the
/// decision for every URL is to proceed.
pub proof fn lemma_unretrieved_policy_allows(url: Seq<char>)
    ensures
        policy_decision(url, None) == Ok::<(), FetchError>(()),
{
}

} // verus!
