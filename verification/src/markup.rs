//! The parts of `scraper` that the library calls. Nothing here is proved:
//! each contract names what the outside call returns. The wrappers are for
//! the library alone, which hands them no selector but the four that it
//! writes itself.

use scraper::{ElementRef, Html, Selector};
use vstd::prelude::*;

verus! {

/// A parsed HTML document, as `scraper` holds it.
#[verifier::external_type_specification]
#[verifier::external_body]
pub struct ExHtml(scraper::Html);

/// A compiled CSS selector group.
#[verifier::external_type_specification]
#[verifier::external_body]
pub struct ExSelector(scraper::Selector);

/// A reference to one element of a parsed document.
#[verifier::external_type_specification]
#[verifier::external_body]
pub struct ExElementRef<'a>(scraper::ElementRef<'a>);

/// The document that `scraper::Html::parse_document` builds from a text.
pub uninterp spec fn document_of(html: Seq<char>) -> Html;

/// The selector that `scraper::Selector::parse` compiles from a text, or
/// `None` where it rejects the text.
pub uninterp spec fn selector_of(css: Seq<char>) -> Option<Selector>;

/// The elements of a document that match a selector, in the order in which
/// `scraper::Html::select` yields them: that in which the parser made them.
pub uninterp spec fn document_matches(doc: Html, sel: Selector) -> Seq<ElementRef<'static>>;

/// The descendants of an element that match a selector, in document order,
/// as `scraper::ElementRef::select` yields them.
pub uninterp spec fn element_matches(el: ElementRef<'static>, sel: Selector) -> Seq<
    ElementRef<'static>,
>;

/// The text nodes below an element, joined in document order, as
/// `scraper::ElementRef::text` yields them.
pub uninterp spec fn element_text_of(el: ElementRef<'static>) -> Seq<char>;

/// The value that `scraper::ElementRef::attr` finds for an attribute of an
/// element, or `None` where the element has none of that name.
pub uninterp spec fn element_attr_of(el: ElementRef<'static>, name: Seq<char>) -> Option<Seq<char>>;

/// Calls `scraper::Html::parse_document`. Parsing never fails; the contract
/// only names the document that results from the text.
#[verifier::external_body]
pub(crate) fn parse_document(html: &str) -> (doc: Html)
    ensures
        doc == document_of(html@),
{
    Html::parse_document(html)
}

/// Calls `scraper::Selector::parse` and drops the error's detail. The
/// contract names the outcome and promises nothing of which texts compile.
#[verifier::external_body]
pub(crate) fn parse_selector(css: &str) -> (sel: Option<Selector>)
    ensures
        sel == selector_of(css@),
{
    Selector::parse(css).ok()
}

/// Calls `scraper::Html::select` and collects what it yields. The contract
/// names the elements and their order.
#[verifier::external_body]
pub(crate) fn select_in_document<'a>(doc: &'a Html, sel: &Selector) -> (found: Vec<ElementRef<'a>>)
    ensures
        found@ == document_matches(*doc, *sel),
{
    doc.select(sel).collect()
}

/// Calls `scraper::ElementRef::select` and collects what it yields. The
/// contract names the elements and their order.
#[verifier::external_body]
pub(crate) fn select_in_element<'a>(el: &ElementRef<'a>, sel: &Selector) -> (found: Vec<
    ElementRef<'a>,
>)
    ensures
        found@ == element_matches(*el, *sel),
{
    el.select(sel).collect()
}

/// Calls `scraper::ElementRef::text` and joins the pieces it yields. The
/// contract names the joined text.
#[verifier::external_body]
pub(crate) fn element_text(el: &ElementRef<'_>) -> (text: String)
    ensures
        text@ == element_text_of(*el),
{
    el.text().collect()
}

/// Calls `scraper::ElementRef::attr` and copies the value out. The
/// contract names what was found.
#[verifier::external_body]
pub(crate) fn element_attr(el: &ElementRef<'_>, name: &str) -> (value: Option<String>)
    ensures
        value.deep_view() == element_attr_of(*el, name@),
{
    el.attr(name).map(|v| v.to_string())
}

} // verus!
