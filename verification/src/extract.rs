//! Metadata extraction from an HTML document.
//!
//! Extraction is best-effort and never fails: the document is parsed
//! tolerantly, and per field the first matching Open Graph Protocol tag in
//! document order is consulted before the first matching standard HTML tag.
//! The fallback is used only when the OGP tag is entirely missing for that
//! field, not when it is present with an empty value.
//!
//! Note: the OGP description value is read from the `context` attribute of
//! its tag, not the conventional `content` attribute. This is documented,
//! deliberate behaviour of this library: an OGP description tag that only
//! carries `content` is treated as missing and the standard meta tag is
//! consulted instead.

use vstd::prelude::*;

use crate::metadata::Metadata;

verus! {

/// The value of attribute `out` on the first element of `html` (in document
/// order) that carries attribute `attr` with value `value`; `None` when no
/// such element exists or it lacks `out`.
pub uninterp spec fn attr_query(
    html: Seq<char>,
    attr: Seq<char>,
    value: Seq<char>,
    out: Seq<char>,
) -> Option<Seq<char>>;

/// The combined text content of the first element of `html` (in document
/// order) named `name`; `None` when no such element exists.
pub uninterp spec fn name_text_query(html: Seq<char>, name: Seq<char>) -> Option<Seq<char>>;

/// Relies on select's Document::from (tolerant HTML parsing), Document::find
/// with the Attr predicate (descendants in document order carrying the given
/// attribute and value) and Node::attr: the `out` attribute of the first
/// matching element. The result depends on the arguments alone.
#[verifier::external_body]
fn first_tag_attr(html: &str, attr: &str, value: &str, out: &str) -> (r: Option<String>)
    ensures
        r.deep_view() == attr_query(html@, attr@, value@, out@),
{
    let document = select::document::Document::from(html);
    match document.find(select::predicate::Attr(attr, value)).next() {
        Some(node) => match node.attr(out) {
            Some(text) => Some(text.to_string()),
            None => None,
        },
        None => None,
    }
}

/// Relies on select's Document::from, Document::find with the Name predicate
/// (descendants in document order with the given element name) and
/// Node::text: the combined text content of the first matching element.
/// The result depends on the arguments alone.
#[verifier::external_body]
fn first_tag_text(html: &str, name: &str) -> (r: Option<String>)
    ensures
        r.deep_view() == name_text_query(html@, name@),
{
    let document = select::document::Document::from(html);
    match document.find(select::predicate::Name(name)).next() {
        Some(node) => Some(node.text()),
        None => None,
    }
}

/// The value of the first OGP title tag of `html`.
pub open spec fn og_title_value(html: Seq<char>) -> Option<Seq<char>> {
    attr_query(html, "property"@, "og:title"@, "content"@)
}

/// The text of the first standard title tag of `html`.
pub open spec fn html_title_text(html: Seq<char>) -> Option<Seq<char>> {
    name_text_query(html, "title"@)
}

/// The value of the first OGP description tag of `html`, read from its
/// `context` attribute (see the module note).
pub open spec fn og_description_value(html: Seq<char>) -> Option<Seq<char>> {
    attr_query(html, "property"@, "og:description"@, "context"@)
}

/// The value of the first standard description meta tag of `html`.
pub open spec fn meta_description_value(html: Seq<char>) -> Option<Seq<char>> {
    attr_query(html, "name"@, "description"@, "content"@)
}

/// The value of the first OGP image tag of `html`.
pub open spec fn og_image_value(html: Seq<char>) -> Option<Seq<char>> {
    attr_query(html, "property"@, "og:image"@, "content"@)
}

/// The extracted title: the OGP title when its tag is present, else the
/// standard title text, else absent.
pub open spec fn title_of(html: Seq<char>) -> Option<Seq<char>> {
    match og_title_value(html) {
        Some(v) => Some(v),
        None => html_title_text(html),
    }
}

/// The extracted description: the OGP description when its tag yields a
/// value, else the standard meta description, else absent.
pub open spec fn description_of(html: Seq<char>) -> Option<Seq<char>> {
    match og_description_value(html) {
        Some(v) => Some(v),
        None => meta_description_value(html),
    }
}

/// The extracted image: the OGP image when its tag is present, else absent.
/// No standard-HTML fallback exists for the preview image.
pub open spec fn image_of(html: Seq<char>) -> Option<Seq<char>> {
    og_image_value(html)
}

/// Extract link-preview metadata from an HTML document. Total: malformed
/// markup degrades to absent fields rather than raising an error. Per field
/// only the first matching tag in document order is consulted, and an OGP
/// tag takes strict precedence over the standard fallback tag.
pub fn extract_metadata(html: &str) -> (m: Metadata)
    ensures
        m.title.deep_view() == title_of(html@),
        m.description.deep_view() == description_of(html@),
        m.image.deep_view() == image_of(html@),
{
    let title = match first_tag_attr(html, "property", "og:title", "content") {
        Some(v) => Some(v),
        None => first_tag_text(html, "title"),
    };
    let description = match first_tag_attr(html, "property", "og:description", "context") {
        Some(v) => Some(v),
        None => first_tag_attr(html, "name", "description", "content"),
    };
    let image = first_tag_attr(html, "property", "og:image", "content");
    Metadata { title, description, image }
}

/// When both the OGP tag and the standard tag for a field are missing, the
/// extracted field is absent; extraction still succeeds, since a missing
/// tag is never an error.
pub proof fn lemma_missing_tags_give_absent_fields(html: Seq<char>)
    ensures
        og_title_value(html) is None && html_title_text(html) is None ==> title_of(html) is None,
        og_description_value(html) is None && meta_description_value(html) is None
            ==> description_of(html) is None,
        og_image_value(html) is None ==> image_of(html) is None,
{
}

/// An OGP tag that yields a value always wins over the standard tag for the
/// same field, whatever the standard tags hold and wherever the two stand
/// in the document.
pub proof fn lemma_ogp_precedence(html: Seq<char>)
    ensures
        og_title_value(html) is Some ==> title_of(html) == og_title_value(html),
        og_description_value(html) is Some ==> description_of(html) == og_description_value(html),
        og_image_value(html) is Some ==> image_of(html) == og_image_value(html),
{
}

} // verus!
