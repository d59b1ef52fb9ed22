//! The link parser: extracts the link destinations from a markdown
//! document, through the markdown crate, and wraps them for queries.

use vstd::prelude::*;

use crate::error::Error;

verus! {

/// The parsed links of one document.
pub struct Parser {
    pub links: Vec<String>,
}

/// The parsed links wrapped as a query payload.
pub struct ParserPayload {
    pub links: Vec<String>,
}

/// The query root the outer server mounts the parser under.
pub struct ParserQuery;

impl From<Parser> for ParserPayload {
    fn from(parser: Parser) -> (r: Self) {
        ParserPayload { links: parser.links }
    }
}

impl vstd::std_specs::convert::FromSpecImpl<Parser> for ParserPayload {
    open spec fn obeys_from_spec() -> bool {
        true
    }

    open spec fn from_spec(parser: Parser) -> Self {
        ParserPayload { links: parser.links }
    }
}

/// What the markdown crate finds: the destination URLs of the document's
/// links, in document order -- a function of the text alone.
pub uninterp spec fn md_links_of(s: Seq<char>) -> Seq<Seq<char>>;

/// Relies on pulldown_cmark::Parser: walks the document's events with every
/// extension enabled and keeps each link's destination URL.
#[verifier::external_body]
fn md_links(content: &str) -> (r: Vec<String>)
    ensures
        r.deep_view() == md_links_of(content@),
{
    let mut links: Vec<String> = Vec::new();
    let parser = pulldown_cmark::Parser::new_ext(content, pulldown_cmark::Options::all());
    for event in parser {
        if let pulldown_cmark::Event::Start(pulldown_cmark::Tag::Link { dest_url, .. }) = event {
            links.push(dest_url.to_string());
        }
    }
    links
}

/// The parser service.
pub struct Service;

impl Service {
    pub fn new() -> Service {
        Service
    }

    /// Extracts the document's link destinations; never fails.
    pub fn parse_link(&self, content: String) -> (r: Result<Parser, Error>)
        ensures
            (match r {
                Ok(p) => p.links.deep_view() == md_links_of(content@),
                Err(_) => false,
            }),
    {
        let links = md_links(content.as_str());
        Ok(Parser { links })
    }
}

} // verus!
