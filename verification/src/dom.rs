use vstd::prelude::*;

verus! {

// ---------------------------------------------------------------------------
// Trusted bindings to the structural-matching engine (the scraper crate).
// A parsed document and the elements inside it are opaque values here; the
// library's contracts speak only of the plain strings that come out of them.
// ---------------------------------------------------------------------------

/// Whether the structural-matching engine accepts `s` as a selector text.
/// Success depends on the text alone.
pub uninterp spec fn css_valid(s: Seq<char>) -> bool;

/// The syntax-failure message embeds the offending selector text, quoted at
/// the front.
pub open spec fn syntax_message_embeds(msg: Seq<char>, text: Seq<char>) -> bool {
    &&& msg.len() > text.len() + 2
    &&& msg[0] == '"'
    &&& msg.subrange(1, text.len() as int + 1) == text
}

#[verifier::external_type_specification]
#[verifier::external_body]
pub struct ExRawSelector(scraper::Selector);

#[verifier::external_type_specification]
#[verifier::external_body]
pub struct ExHtml(scraper::Html);

#[verifier::external_type_specification]
#[verifier::external_body]
pub struct ExElementRef<'a>(scraper::ElementRef<'a>);

/// Relies on scraper::Selector::parse: compiles a selector-group text, and
/// succeeds or fails on the text alone.  The failure message opens with the
/// quoted offending text, followed by the engine's own error rendering.
#[verifier::external_body]
pub(crate) fn parse_css(s: &str) -> (r: Result<scraper::Selector, String>)
    ensures
        r is Ok <==> css_valid(s@),
        r matches Err(m) ==> syntax_message_embeds(m@, s@),
{
    scraper::Selector::parse(s).map_err(|e| format!("\"{}\" is not a valid selector: {}", s, e))
}

/// Relies on scraper::Html::parse_document: parses HTML text into a document
/// tree, never failing (malformed input is repaired as browsers do).
#[verifier::external_body]
pub(crate) fn parse_document(html: &str) -> scraper::Html {
    scraper::Html::parse_document(html)
}

/// Relies on scraper::Html::select: the matching descendant elements of the
/// whole document, in document order.
#[verifier::external_body]
pub(crate) fn select_in_document<'a>(
    doc: &'a scraper::Html,
    selector: &scraper::Selector,
) -> Vec<scraper::ElementRef<'a>> {
    doc.select(selector).collect()
}

/// Relies on scraper::ElementRef::select: the first matching descendant of
/// `element` in document order, or none.
#[verifier::external_body]
pub(crate) fn select_first_in<'a>(
    element: &scraper::ElementRef<'a>,
    selector: &scraper::Selector,
) -> Option<scraper::ElementRef<'a>> {
    element.select(selector).next()
}

/// Relies on scraper::ElementRef::text: the concatenation of all text nodes
/// under the element, in document order, with no added separators.
#[verifier::external_body]
pub(crate) fn element_text(element: &scraper::ElementRef<'_>) -> String {
    element.text().collect()
}

/// Relies on scraper::ElementRef::attr: the element's value for the named
/// attribute, or none when the attribute is absent.
#[verifier::external_body]
pub(crate) fn element_attr(element: &scraper::ElementRef<'_>, name: &str) -> Option<String> {
    element.attr(name).map(|v| v.to_owned())
}

} // verus!
