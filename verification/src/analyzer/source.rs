//! Parsing a source file and matching a query against it, with a language's grammar.

use vstd::prelude::*;
use crate::languages::LanguageProvider;
use crate::syntax::{parse_captures, parse_syntax, source_captures_of, source_syntax, Capture, CaptureView, SyntaxNode};

verus! {

/// The captures of `query` over `content` with the grammar `grammar`, none when tree-sitter
/// gives none (the grammar cannot be loaded, parsing gives up, or the query does not
/// compile).
pub open spec fn found_captures(grammar: crate::languages::LanguageKind, query: Seq<char>, content: Seq<char>) -> Seq<CaptureView> {
    match source_captures_of(grammar, query, content) {
        Some(caps) => caps,
        None => Seq::empty(),
    }
}

/// The captures of `query_source` over the syntax tree of `content`, in match order.
pub(crate) fn source_captures<P: LanguageProvider>(provider: &P, content: &str, query_source: &str) -> (r: Vec<Capture>)
    ensures
        r.deep_view() == found_captures(provider.spec_grammar(), query_source@, content@),
{
    let language = provider.language();
    match parse_captures(&language, provider.language_kind(), query_source, content) {
        Some(caps) => caps,
        None => Vec::new(),
    }
}

/// The syntax tree of `content`; `None` when the grammar cannot be loaded or parsing
/// gives up.
pub(crate) fn source_tree<P: LanguageProvider>(provider: &P, content: &str) -> (r: Option<SyntaxNode>)
    ensures
        r == source_syntax(provider.spec_grammar(), content@),
{
    let language = provider.language();
    parse_syntax(&language, provider.language_kind(), content)
}

} // verus!
