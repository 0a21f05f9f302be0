//! From the outcome of a page fetch to the final result.
//!
//! The page fetch itself is network transport and happens outside this
//! library; its outcome arrives here as a plain value. A retrieved body is
//! handed to extraction, and each way the fetch can go wrong maps to its
//! own error kind.

use vstd::prelude::*;

use crate::extract::description_of;
use crate::extract::extract_metadata;
use crate::extract::image_of;
use crate::extract::title_of;
use crate::metadata::Metadata;
use crate::FetchError;

verus! {

/// The outcome of one GET of the target page, as seen by the transport:
/// a decoded body, a transport-level failure, a non-success HTTP status,
/// or a body that could not be decoded as text.
#[derive(Debug, Clone)]
pub enum PageOutcome {
    Body(String),
    TransportFailure,
    BadStatus(u16),
    Undecodable,
}

/// Turn the outcome of the page fetch into the final result: a retrieved
/// body yields its extracted metadata, and each failure yields the error
/// kind of its cause. Extraction never fails, so a retrieved body always
/// yields `Ok`.
pub fn page_metadata(outcome: PageOutcome) -> (r: Result<Metadata, FetchError>)
    ensures
        outcome matches PageOutcome::Body(html) ==> r matches Ok(m) && m.title.deep_view()
            == title_of(html@) && m.description.deep_view() == description_of(html@)
            && m.image.deep_view() == image_of(html@),
        outcome is TransportFailure ==> r == Err::<Metadata, FetchError>(FetchError::NetworkError),
        outcome matches PageOutcome::BadStatus(status) ==> r == Err::<Metadata, FetchError>(
            FetchError::HttpError(status),
        ),
        outcome is Undecodable ==> r == Err::<Metadata, FetchError>(FetchError::DecodeError),
{
    match outcome {
        PageOutcome::Body(html) => Ok(extract_metadata(html.as_str())),
        PageOutcome::TransportFailure => Err(FetchError::NetworkError),
        PageOutcome::BadStatus(status) => Err(FetchError::HttpError(status)),
        PageOutcome::Undecodable => Err(FetchError::DecodeError),
    }
}

} // verus!
