//! The outside conversion routines the tool delegates to, each behind a
//! wrapper whose contract names its result. The converters are black boxes
//! here: each is deterministic, so its output gets a name that the dispatch
//! contracts are stated over, and nothing more is claimed of it.

use vstd::prelude::*;

verus! {

/// The HTML that the Markdown compiler produces for a Markdown document.
pub uninterp spec fn html_of_markdown(s: Seq<char>) -> Seq<char>;

/// The plain text that stripping Markdown syntax from a document leaves.
pub uninterp spec fn plain_of_markdown(s: Seq<char>) -> Seq<char>;

/// The Markdown that the HTML converter produces for an HTML document,
/// or `None` where the converter rejects the document.
pub uninterp spec fn markdown_of_html(s: Seq<char>) -> Option<Seq<char>>;

#[verifier::external_type_specification]
#[verifier::external_body]
pub struct ExIoError(std::io::Error);

/// Relies on markdown::to_html: it compiles a Markdown document to HTML,
/// a function of the input alone.
#[verifier::external_body]
pub(crate) fn markdown_to_html(s: &str) -> (r: String)
    ensures
        r@ == html_of_markdown(s@),
{
    markdown::to_html(s)
}

/// Relies on strip_markdown::strip_markdown: it removes Markdown syntax from
/// a document, leaving its text, a function of the input alone.
#[verifier::external_body]
pub(crate) fn markdown_to_plain(s: &str) -> (r: String)
    ensures
        r@ == plain_of_markdown(s@),
{
    strip_markdown::strip_markdown(s)
}

/// Relies on htmd::convert: it converts an HTML document to Markdown, a
/// function of the input alone, and reports failure through its `Result`.
#[verifier::external_body]
pub(crate) fn html_to_markdown(s: &str) -> (r: Result<String, std::io::Error>)
    ensures
        r is Ok <==> markdown_of_html(s@) is Some,
        r matches Ok(m) ==> markdown_of_html(s@) == Some(m@),
{
    htmd::convert(s)
}

} // verus!
