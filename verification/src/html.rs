//! Conversion of HTML to plain text.

use vstd::prelude::*;

verus! {

/// The plain text that the HTML converter gives for a document.
pub uninterp spec fn html_to_text(html: Seq<char>) -> Seq<char>;

/// Converts an HTML document to plain text with `nanohtml2text::html2text`. The converter
/// reads nothing but its argument, so the same document always gives the same text; what that
/// text is, is left to the converter.
#[verifier::external_body]
pub(crate) fn html2text(html: &str) -> (res: String)
    ensures
        res@ == html_to_text(html@),
{
    nanohtml2text::html2text(html)
}

} // verus!
