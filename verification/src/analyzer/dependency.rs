//! Import statements found by each language's import query.

use vstd::prelude::*;
use crate::languages::LanguageProvider;
use crate::syntax::{Capture, CaptureView};
use crate::text::{trim_string, trimmed};
use crate::analyzer::source::{found_captures, source_captures};

verus! {

/// Finds the imports of a file.
pub struct DependencyAnalyzer;

/// The captured text of each capture, without surrounding white space, in order.
pub open spec fn imports_of(caps: Seq<CaptureView>) -> Seq<Seq<char>> {
    caps.map_values(|c: CaptureView| trimmed(c.text))
}

impl DependencyAnalyzer {
    /// The trimmed text of each capture of the import query, in order.
    pub fn imports_from_captures(&self, captures: &Vec<Capture>) -> (r: Vec<String>)
        ensures
            r.deep_view() == imports_of(captures.deep_view()),
    {
        let mut imports: Vec<String> = Vec::new();
        let mut i: usize = 0;
        while i < captures.len()
            invariant
                i <= captures.len(),
                imports.deep_view() == imports_of(captures.deep_view()).take(i as int),
            decreases captures.len() - i,
        {
            proof {
                assert(captures.deep_view()[i as int] == captures[i as int]@);
            }
            let ghost prev = imports.deep_view();
            imports.push(trim_string(captures[i].text.as_str()));
            proof {
                assert(imports.deep_view() =~= prev.push(trimmed(captures[i as int].text@)));
                assert(imports.deep_view() =~= imports_of(captures.deep_view()).take(i + 1));
            }
            i = i + 1;
        }
        proof {
            assert(imports_of(captures.deep_view()).take(i as int) =~= imports_of(captures.deep_view()));
        }
        imports
    }

    /// The imports of one file, found by the language's import query, trimmed.
    pub fn analyze<P: LanguageProvider>(&self, path: &str, content: &str, provider: &P) -> (r: Vec<String>)
        ensures
            r.deep_view() == imports_of(found_captures(provider.spec_grammar(), provider.spec_import_query(), content@)),
    {
        let caps = source_captures(provider, content, provider.import_query());
        self.imports_from_captures(&caps)
    }
}

} // verus!
