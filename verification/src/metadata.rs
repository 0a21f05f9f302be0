//! The metadata record extracted from a page.

use vstd::prelude::*;

verus! {

/// Link-preview metadata of a web page: title, description and preview
/// image, each either a populated string or absent. A field is populated
/// only when a corresponding tag was found in the document; a missing tag
/// is represented as an absent field, never as an error.
#[derive(Debug, Clone)]
pub struct Metadata {
    pub title: Option<String>,
    pub description: Option<String>,
    pub image: Option<String>,
}

impl Metadata {
    /// Create a new `Metadata` record with the given title, description and image.
    pub fn new(title: Option<String>, description: Option<String>, image: Option<String>) -> (m:
        Metadata)
        ensures
            m.title == title,
            m.description == description,
            m.image == image,
    {
        Metadata { title, description, image }
    }
}

/// Equality of two optional strings, decided by their character sequences.
fn opt_str_eq(a: &Option<String>, b: &Option<String>) -> (r: bool)
    ensures
        r <==> a.deep_view() == b.deep_view(),
{
    match (a, b) {
        (Option::None, Option::None) => true,
        (Option::Some(x), Option::Some(y)) => x.eq(y),
        _ => false,
    }
}

impl PartialEq for Metadata {
    /// Structural equality: all three fields hold equal text or are both absent.
    fn eq(&self, other: &Metadata) -> (r: bool) {
        opt_str_eq(&self.title, &other.title) && opt_str_eq(&self.description, &other.description)
            && opt_str_eq(&self.image, &other.image)
    }
}

impl vstd::std_specs::cmp::PartialEqSpecImpl for Metadata {
    open spec fn obeys_eq_spec() -> bool {
        true
    }

    open spec fn eq_spec(&self, other: &Metadata) -> bool {
        &&& self.title.deep_view() == other.title.deep_view()
        &&& self.description.deep_view() == other.description.deep_view()
        &&& self.image.deep_view() == other.image.deep_view()
    }
}

} // verus!
