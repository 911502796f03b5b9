//! Conversion of documents, and the worker that drives tasks through it.

pub mod worker;

use crate::types::stage::MarkdownConversionMethod;
use vstd::prelude::*;
use vstd::string::*;

verus! {

/// How a conversion method is served.
#[derive(Debug, PartialEq, Eq)]
pub enum ConversionRoute {
    /// The document's text is extracted on this machine.
    Extract,
    /// No converter serves the method; holds what a task that asks for it
    /// fails with.
    Unavailable(String),
}

/// Text of the failure of a method that no converter serves.
pub open spec fn unavailable_report(method: MarkdownConversionMethod) -> Option<Seq<char>> {
    match method {
        MarkdownConversionMethod::Simple => None,
        MarkdownConversionMethod::Marker => Some("Marker PDF Processing Not Implemented"@),
        MarkdownConversionMethod::OlmOcr => Some("OlmOcr PDF Processing Not Implemented"@),
    }
}

/// Selects the converter for `method`. `Simple` is served by local
/// extraction; the other methods are served by nothing yet, and a task
/// that asks for one fails with a report that says so.
pub fn process_pdf(method: MarkdownConversionMethod) -> (route: ConversionRoute)
    ensures
        match unavailable_report(method) {
            None => route == ConversionRoute::Extract,
            Some(report) => route matches ConversionRoute::Unavailable(text) && text@ == report,
        },
{
    match method {
        MarkdownConversionMethod::Simple => ConversionRoute::Extract,
        MarkdownConversionMethod::Marker => ConversionRoute::Unavailable(
            String::from_str("Marker PDF Processing Not Implemented"),
        ),
        MarkdownConversionMethod::OlmOcr => ConversionRoute::Unavailable(
            String::from_str("OlmOcr PDF Processing Not Implemented"),
        ),
    }
}

} // verus!
