//! Function definitions and the calls of known functions.

use vstd::prelude::*;
use crate::index::{pairs_view, DefinitionIndex};
use crate::languages::LanguageProvider;
use crate::syntax::{
    capture_rows_fit, check_capture_rows, enclosing_function, find_enclosing_function, Capture,
    CaptureView, FunctionRule, SyntaxNode,
};
use crate::text::{decimal, decimal_string};
use crate::types::{copy_opt_string, CallInfo, CallInfoView, FnDefinition, FnDefinitionView};
use crate::analyzer::source::{found_captures, source_captures, source_tree};
use crate::languages::LanguageKind;
use crate::syntax::source_syntax;

verus! {

/// Indexes function definitions and finds calls of them.
pub struct SymbolAnalyzer;

/// The text of the query that captures the callee name of plain function calls in
/// `kind`'s grammar.
pub open spec fn call_query_text(kind: LanguageKind) -> Seq<char> {
    match kind {
        LanguageKind::Python => "(call function: (identifier) @call_name)"@,
        LanguageKind::Ruby => "(call method: (identifier) @call_name)"@,
        LanguageKind::Php => "(function_call_expression function: (name) @call_name)"@,
        LanguageKind::Kotlin => "(call_expression (simple_identifier) @call_name)"@,
        _ => "(call_expression function: (identifier) @call_name) (call_expression (identifier) @call_name)"@,
    }
}

/// The query that captures the callee name of plain function calls in `kind`'s grammar.
pub fn call_query(kind: LanguageKind) -> (q: &'static str)
    ensures
        q@ == call_query_text(kind),
{
    match kind {
        LanguageKind::Python => "(call function: (identifier) @call_name)",
        LanguageKind::Ruby => "(call method: (identifier) @call_name)",
        LanguageKind::Php => "(function_call_expression function: (name) @call_name)",
        LanguageKind::Kotlin => "(call_expression (simple_identifier) @call_name)",
        _ => "(call_expression function: (identifier) @call_name) (call_expression (identifier) @call_name)",
    }
}

/// The (name, definition) pair of one capture of a function-name query in file `path`.
pub open spec fn definition_of(path: Seq<char>, c: CaptureView) -> (Seq<char>, FnDefinitionView) {
    (c.text, FnDefinitionView { file: path, line: (c.row + 1) as usize })
}

/// One (name, definition) pair per capture, in order.
pub open spec fn definitions_of(path: Seq<char>, caps: Seq<CaptureView>) -> Seq<(Seq<char>, FnDefinitionView)> {
    caps.map_values(|c: CaptureView| definition_of(path, c))
}

/// Where a definition is: its file, a colon, and its line in decimal.
pub open spec fn location(def: FnDefinitionView) -> Seq<char> {
    def.file + ":"@ + decimal(def.line as nat)
}

/// The enclosing function name of the captured node, `None` when it has none or is not
/// in the tree.
pub open spec fn caller_at(tree: SyntaxNode, id: (usize, usize), rule: FunctionRule) -> Option<Seq<char>> {
    match enclosing_function(tree, id, rule) {
        Some(c) => c,
        None => None,
    }
}

/// The call record of capture `c` in file `path` for one definition of its callee.
pub open spec fn call_of(path: Seq<char>, c: CaptureView, caller: Option<Seq<char>>, def: FnDefinitionView) -> CallInfoView {
    CallInfoView {
        caller_file: path,
        caller_line: (c.row + 1) as usize,
        caller_name: caller,
        callee_name: c.text,
        callee_defined_at: location(def),
    }
}

/// The call records of one capture: one per definition of the callee, in order.
pub open spec fn calls_of_capture(
    path: Seq<char>,
    c: CaptureView,
    tree: SyntaxNode,
    index: DefinitionIndex,
    rule: FunctionRule,
) -> Seq<CallInfoView> {
    match index.lookup(c.text) {
        Some(defs) => defs.map_values(|d: FnDefinitionView| call_of(path, c, caller_at(tree, c.id, rule), d)),
        None => Seq::empty(),
    }
}

/// The call records of all captures, capture after capture.
pub open spec fn calls_of(
    path: Seq<char>,
    caps: Seq<CaptureView>,
    tree: SyntaxNode,
    index: DefinitionIndex,
    rule: FunctionRule,
) -> Seq<CallInfoView>
    decreases caps.len(),
{
    if caps.len() == 0 {
        Seq::empty()
    } else {
        calls_of(path, caps.drop_last(), tree, index, rule) + calls_of_capture(path, caps.last(), tree, index, rule)
    }
}

/// The (name, definition) pairs found in the text `content` of file `path` by the query
/// `query` with the grammar `grammar`: one per capture, none when a capture's row is too
/// large to count.
pub open spec fn definitions_in_source(
    path: Seq<char>,
    grammar: LanguageKind,
    query: Seq<char>,
    content: Seq<char>,
) -> Seq<(Seq<char>, FnDefinitionView)> {
    let caps = found_captures(grammar, query, content);
    if capture_rows_fit(caps) {
        definitions_of(path, caps)
    } else {
        Seq::empty()
    }
}

/// The call records found in the text `content` of file `path` by the call query `query`
/// with the grammar `grammar`: none when the text does not parse or a capture's row is
/// too large to count, else [`calls_of`] over the captures and the syntax tree.
pub open spec fn calls_in_source(
    path: Seq<char>,
    grammar: LanguageKind,
    query: Seq<char>,
    content: Seq<char>,
    index: DefinitionIndex,
    rule: FunctionRule,
) -> Seq<CallInfoView> {
    match source_syntax(grammar, content) {
        None => Seq::empty(),
        Some(tree) => {
            let caps = found_captures(grammar, query, content);
            if capture_rows_fit(caps) {
                calls_of(path, caps, tree, index, rule)
            } else {
                Seq::empty()
            }
        },
    }
}

/// Law: every call record names a function of the index as callee, points at one of that
/// function's definitions, and lies in the analyzed file.
pub proof fn lemma_calls_point_at_definitions(
    path: Seq<char>,
    caps: Seq<CaptureView>,
    tree: SyntaxNode,
    index: DefinitionIndex,
    rule: FunctionRule,
    k: int,
)
    requires
        0 <= k < calls_of(path, caps, tree, index, rule).len(),
    ensures
        ({
            let c = calls_of(path, caps, tree, index, rule)[k];
            &&& c.caller_file == path
            &&& index.lookup(c.callee_name) is Some
            &&& exists|d: int|
                0 <= d < index.lookup(c.callee_name)->0.len() && c.callee_defined_at == location(
                    #[trigger] index.lookup(c.callee_name)->0[d],
                )
        }),
    decreases caps.len(),
{
    let all = calls_of(path, caps, tree, index, rule);
    let init = calls_of(path, caps.drop_last(), tree, index, rule);
    if k < init.len() {
        lemma_calls_point_at_definitions(path, caps.drop_last(), tree, index, rule, k);
        assert(all[k] == init[k]);
    } else {
        let last = caps.last();
        let defs = index.lookup(last.text)->0;
        let d = k - init.len();
        assert(all[k] == call_of(path, last, caller_at(tree, last.id, rule), defs[d]));
    }
}

/// Where `def` is, as `file:line`.
pub fn location_string(def: &FnDefinition) -> (r: String)
    ensures
        r@ == location(def@),
{
    let mut s = def.file.clone();
    s.append(":");
    let line = decimal_string(def.line);
    s.append(line.as_str());
    s
}

/// One (name, definition) pair per capture of a function-name query, in order.
pub fn definitions_from_captures(path: &str, captures: &Vec<Capture>) -> (r: Vec<(String, FnDefinition)>)
    requires
        capture_rows_fit(captures.deep_view()),
    ensures
        pairs_view(r@) == definitions_of(path@, captures.deep_view()),
{
    let mut defs: Vec<(String, FnDefinition)> = Vec::new();
    let mut i: usize = 0;
    while i < captures.len()
        invariant
            i <= captures.len(),
            capture_rows_fit(captures.deep_view()),
            pairs_view(defs@) == definitions_of(path@, captures.deep_view()).take(i as int),
        decreases captures.len() - i,
    {
        let c = &captures[i];
        proof {
            assert(captures.deep_view()[i as int] == c@);
            assert(captures.deep_view()[i as int].row < usize::MAX);
        }
        let ghost prev = defs@;
        defs.push((c.text.clone(), FnDefinition { file: String::from_str(path), line: c.row + 1 }));
        proof {
            assert(pairs_view(defs@) =~= pairs_view(prev).push(definition_of(path@, c@)));
            assert(pairs_view(defs@) =~= definitions_of(path@, captures.deep_view()).take(i + 1));
        }
        i = i + 1;
    }
    proof {
        assert(definitions_of(path@, captures.deep_view()).take(i as int) =~= definitions_of(
            path@,
            captures.deep_view(),
        ));
    }
    defs
}

/// The call records of the captures of the call query: for each capture whose text is an
/// indexed function name, one record per definition of that name.
pub fn calls_from_captures(
    path: &str,
    captures: &Vec<Capture>,
    tree: &SyntaxNode,
    definitions: &DefinitionIndex,
    rule: &FunctionRule,
) -> (r: Vec<CallInfo>)
    requires
        definitions.wf(),
        capture_rows_fit(captures.deep_view()),
    ensures
        r.deep_view() == calls_of(path@, captures.deep_view(), *tree, *definitions, *rule),
{
    let ghost cv = captures.deep_view();
    let mut result: Vec<CallInfo> = Vec::new();
    let mut i: usize = 0;
    proof {
        assert(cv.take(0) =~= Seq::<CaptureView>::empty());
        assert(result.deep_view() =~= Seq::<CallInfoView>::empty());
    }
    while i < captures.len()
        invariant
            cv == captures.deep_view(),
            i <= cv.len(),
            definitions.wf(),
            capture_rows_fit(cv),
            result.deep_view() == calls_of(path@, cv.take(i as int), *tree, *definitions, *rule),
        decreases cv.len() - i,
    {
        let c = &captures[i];
        proof {
            assert(cv[i as int] == c@);
            assert(cv[i as int].row < usize::MAX);
            assert(cv.take(i + 1).drop_last() =~= cv.take(i as int));
            assert(cv.take(i + 1).last() == c@);
        }
        let ghost before = result.deep_view();
        match definitions.get(c.text.as_str()) {
            Some(defs) => {
                let caller = match find_enclosing_function(tree, c.id, rule) {
                    Some(found) => found,
                    None => None,
                };
                let ghost dv = defs.deep_view();
                let ghost caller_v = caller_at(*tree, c.id, *rule);
                let ghost expected = dv.map_values(|d: FnDefinitionView| call_of(path@, c@, caller_v, d));
                let mut j: usize = 0;
                while j < defs.len()
                    invariant
                        j <= defs.len(),
                        dv == defs.deep_view(),
                        caller.deep_view() == caller_v,
                        c@.row < usize::MAX,
                        expected == dv.map_values(|d: FnDefinitionView| call_of(path@, c@, caller_v, d)),
                        result.deep_view() == before + expected.take(j as int),
                    decreases defs.len() - j,
                {
                    proof {
                        assert(dv[j as int] == defs[j as int]@);
                    }
                    let record = CallInfo {
                        caller_file: String::from_str(path),
                        caller_line: c.row + 1,
                        caller_name: copy_opt_string(&caller),
                        callee_name: c.text.clone(),
                        callee_defined_at: location_string(&defs[j]),
                    };
                    let ghost prev = result.deep_view();
                    result.push(record);
                    proof {
                        assert(result.deep_view() =~= prev.push(expected[j as int]));
                        assert(result.deep_view() =~= before + expected.take(j + 1));
                    }
                    j = j + 1;
                }
                proof {
                    assert(expected.take(j as int) =~= expected);
                }
            },
            None => {
                proof {
                    assert(result.deep_view() =~= before + Seq::<CallInfoView>::empty());
                }
            },
        }
        i = i + 1;
    }
    proof {
        assert(cv.take(cv.len() as int) =~= cv);
    }
    result
}

impl SymbolAnalyzer {
    /// The functions defined in one file, found by the language's function-name query:
    /// one (name, definition) pair per capture, in order.
    pub fn index_definitions<P: LanguageProvider>(
        &self,
        path: &str,
        content: &str,
        provider: &P,
    ) -> (r: Vec<(String, FnDefinition)>)
        ensures
            pairs_view(r@) == definitions_in_source(path@, provider.spec_grammar(), provider.spec_fn_query(), content@),
    {
        let caps = source_captures(provider, content, provider.fn_query());
        if check_capture_rows(&caps) {
            definitions_from_captures(path, &caps)
        } else {
            let r: Vec<(String, FnDefinition)> = Vec::new();
            proof {
                assert(pairs_view(r@) =~= Seq::<(Seq<char>, FnDefinitionView)>::empty());
            }
            r
        }
    }

    /// The calls in one file of functions in `definitions`, found by the call query of the
    /// file's language, with the name of the innermost enclosing function or method; none
    /// when the file cannot be parsed.
    pub fn find_calls<P: LanguageProvider>(
        &self,
        path: &str,
        content: &str,
        provider: &P,
        definitions: &DefinitionIndex,
    ) -> (r: Vec<CallInfo>)
        requires
            definitions.wf(),
        ensures
            r.deep_view() == calls_in_source(
                path@,
                provider.spec_grammar(),
                call_query_text(provider.spec_grammar()),
                content@,
                *definitions,
                FunctionRule::FunctionOrMethod,
            ),
    {
        let query = call_query(provider.language_kind());
        match source_tree(provider, content) {
            Some(tree) => {
                let caps = source_captures(provider, content, query);
                if check_capture_rows(&caps) {
                    calls_from_captures(path, &caps, &tree, definitions, &FunctionRule::FunctionOrMethod)
                } else {
                    Vec::new()
                }
            },
            None => Vec::new(),
        }
    }
}

} // verus!
