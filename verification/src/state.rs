//! Workspace state shared by the tools: the last analyzed root and the cached call graph.

use vstd::prelude::*;
use crate::diagram::{concat, edge_lines, first_occurrences, mermaid_of};
use crate::impact::{impact_walk, impacted_by, impacted_calls, is_impact_order};
use crate::analyzer::call_graph::{
    calls_from_captures, calls_in_source, definitions_from_captures, definitions_in_source,
};
use crate::analyzer::metrics::{lemma_metrics_are_consistent, collect_metrics, complexity_nodes, metrics_in_source, metrics_of, FunctionMetrics, FunctionMetricsView};
use crate::analyzer::source::{source_captures, source_tree};
use crate::index::{first_appearances, grouped, pairs_view, DefinitionIndex};
use crate::languages::{LanguageKind, LanguageProvider};
use crate::syntax::{source_syntax, capture_rows_fit, check_capture_rows, checked_node_count, tree_fits, CaptureView, FunctionRule, SyntaxNode};
use crate::text::{contains_str, has_substring, lemma_substring_split, splits, str_eq};
use crate::types::{CallInfo, CallInfoView, FnDefinition, FnDefinitionView, SourceFile, SourceFileView};

verus! {

/// The files the workspace-wide analyses read: Rust sources outside `target` directories.
pub open spec fn is_workspace_rust_file(f: SourceFileView) -> bool {
    f.extension == Some("rs"@) && !has_substring(f.path, "/target/"@)
}

/// Whether `f` is a Rust source outside `target` directories.
pub fn is_workspace_rust_source(f: &SourceFile) -> (r: bool)
    ensures
        r == is_workspace_rust_file(f@),
{
    match &f.extension {
        Some(e) => str_eq(e.as_str(), "rs") && !contains_str(f.path.as_str(), "/target/"),
        None => false,
    }
}

/// `index` groups `pairs`: names in order of first appearance, under each name the
/// definitions paired with it, in order.
pub open spec fn is_index_of(index: DefinitionIndex, pairs: Seq<(Seq<char>, FnDefinitionView)>) -> bool {
    &&& index.wf()
    &&& index.names() == first_appearances(pairs)
    &&& forall|name: Seq<char>|
        #[trigger] index.lookup(name) == if grouped(pairs, name).len() == 0 {
            None
        } else {
            Some(grouped(pairs, name))
        }
}

/// The (name, definition) pairs that indexing finds in file `f`: none unless it is a
/// workspace Rust source, else those of the Rust function-name query on its text.
pub open spec fn file_definitions(f: SourceFileView) -> Seq<(Seq<char>, FnDefinitionView)> {
    if is_workspace_rust_file(f) {
        definitions_in_source(f.path, LanguageKind::Rust, LanguageKind::Rust.spec_fn_query(), f.content)
    } else {
        Seq::empty()
    }
}

/// The pairs that indexing finds in `files`, file after file.
pub open spec fn workspace_definitions(files: Seq<SourceFile>) -> Seq<(Seq<char>, FnDefinitionView)>
    decreases files.len(),
{
    if files.len() == 0 {
        Seq::empty()
    } else {
        workspace_definitions(files.drop_last()) + file_definitions(files.last()@)
    }
}

/// The text of the query of the workspace-wide call search.
pub open spec fn workspace_call_query_text() -> Seq<char> {
    "(call_expression function: (identifier) @call_name)"@
}

/// The call records that the call search finds in file `f`: none unless it is a
/// workspace Rust source, else those of the workspace call query on its text, with the
/// enclosing `function_item` as caller.
pub open spec fn file_calls(f: SourceFileView, index: DefinitionIndex) -> Seq<CallInfoView> {
    if is_workspace_rust_file(f) {
        calls_in_source(f.path, LanguageKind::Rust, workspace_call_query_text(), f.content, index, FunctionRule::FunctionItem)
    } else {
        Seq::empty()
    }
}

/// The call records that the call search finds in `files`, file after file.
pub open spec fn workspace_calls(files: Seq<SourceFile>, index: DefinitionIndex) -> Seq<CallInfoView>
    decreases files.len(),
{
    if files.len() == 0 {
        Seq::empty()
    } else {
        workspace_calls(files.drop_last(), index) + file_calls(files.last()@, index)
    }
}

/// The measurements of file `f`: none unless it is a workspace Rust source, else those of
/// the `function_item` nodes of its Rust syntax tree, with a length limit of 50.
pub open spec fn file_metrics(f: SourceFileView) -> Seq<FunctionMetricsView> {
    if is_workspace_rust_file(f) {
        metrics_in_source(f.path, LanguageKind::Rust, f.content, FunctionRule::FunctionItem, 50)
    } else {
        Seq::empty()
    }
}

/// The measurements of `files`, file after file.
pub open spec fn workspace_metrics(files: Seq<SourceFile>) -> Seq<FunctionMetricsView>
    decreases files.len(),
{
    if files.len() == 0 {
        Seq::empty()
    } else {
        workspace_metrics(files.drop_last()) + file_metrics(files.last()@)
    }
}

/// Law: the workspace analyses read exactly the files whose extension is `rs` and whose
/// path has no `/target/` in it.
pub proof fn lemma_workspace_files(f: SourceFileView)
    ensures
        is_workspace_rust_file(f) <==> f.extension == Some("rs"@) && !(exists|p: Seq<char>, s: Seq<char>|
            #[trigger] splits(f.path, p, "/target/"@, s)),
{
    lemma_substring_split(f.path, "/target/"@);
}

/// Law: every measurement of a workspace file is of that file, and flags its function
/// exactly when the complexity exceeds 10 or the length exceeds 50 lines.
pub proof fn lemma_file_metrics_flags(f: SourceFileView)
    ensures
        forall|i: int|
            0 <= i < file_metrics(f).len() ==> #[trigger] file_metrics(f)[i].file == f.path && (file_metrics(
                f,
            )[i].is_hell_function <==> (file_metrics(f)[i].cyclomatic_complexity > 10 || file_metrics(
                f,
            )[i].length > 50)),
{
    if is_workspace_rust_file(f) {
        match source_syntax(LanguageKind::Rust, f.content) {
            Some(t) => {
                if tree_fits(t) {
                    lemma_metrics_are_consistent(t, f.path, LanguageKind::Rust, FunctionRule::FunctionItem, 50);
                    let m = metrics_of(t, f.path, LanguageKind::Rust, FunctionRule::FunctionItem, 50);
                    assert(file_metrics(f) == m);
                    assert forall|i: int| 0 <= i < m.len() implies #[trigger] m[i].file == f.path && (
                    m[i].is_hell_function <==> (m[i].cyclomatic_complexity > 10 || m[i].length > 50)) by {
                        assert(crate::analyzer::metrics::is_consistent_metric(m[i], f.path, 50));
                    }
                }
            },
            None => {},
        }
    }
}

proof fn lemma_take_step(files: Seq<SourceFile>, i: int)
    requires
        0 <= i < files.len(),
    ensures
        files.take(i + 1).drop_last() == files.take(i),
        files.take(i + 1).last() == files[i],
{
    assert(files.take(i + 1).drop_last() =~= files.take(i));
}

/// The query of the workspace-wide call search: call expressions with a plain
/// identifier as callee.
pub fn workspace_call_query() -> (q: &'static str)
    ensures
        q@ == workspace_call_query_text(),
{
    "(call_expression function: (identifier) @call_name)"
}

proof fn lemma_pairs_view_append(a: Seq<(String, FnDefinition)>, b: Seq<(String, FnDefinition)>)
    ensures
        pairs_view(a + b) == pairs_view(a) + pairs_view(b),
{
    assert(pairs_view(a + b) =~= pairs_view(a) + pairs_view(b));
}

/// What the tools remember between requests.
pub struct SharedState {
    pub last_root: Option<String>,
    pub cached_definitions: DefinitionIndex,
    pub cached_calls: Vec<CallInfo>,
}

impl SharedState {
    /// No root analyzed yet, nothing cached.
    pub fn new() -> (r: SharedState)
        ensures
            r.last_root is None,
            r.cached_definitions.wf(),
            r.cached_definitions.names() == Seq::<Seq<char>>::empty(),
            r.cached_calls@ == Seq::<CallInfo>::empty(),
    {
        SharedState { last_root: None, cached_definitions: DefinitionIndex::new(), cached_calls: Vec::new() }
    }

    /// A Mermaid `graph TD` of the cached calls: one line per distinct `caller --> callee`
    /// edge, in order of first occurrence, with `main` standing for an unknown caller.
    pub fn get_mermaid_diagram(&self) -> (r: String)
        ensures
            r@ == mermaid_of(self.cached_calls.deep_view()),
    {
        let calls = &self.cached_calls;
        let ghost lines = edge_lines(calls.deep_view());
        let mut diagram = String::from_str("graph TD;\n");
        let mut seen: Vec<String> = Vec::new();
        let mut i: usize = 0;
        proof {
            assert(lines.take(0) =~= Seq::<Seq<char>>::empty());
            assert(seen.deep_view() =~= Seq::<Seq<char>>::empty());
            assert(concat(Seq::<Seq<char>>::empty()) =~= Seq::<char>::empty());
            assert(diagram@ =~= "graph TD;\n"@ + concat(seen.deep_view()));
        }
        while i < calls.len()
            invariant
                i <= calls.len(),
                lines == edge_lines(calls.deep_view()),
                seen.deep_view() == first_occurrences(lines.take(i as int)),
                diagram@ == "graph TD;\n"@ + concat(seen.deep_view()),
            decreases calls.len() - i,
        {
            let call = &calls[i];
            let mut edge = String::from_str("    ");
            match &call.caller_name {
                Some(caller) => edge.append(caller.as_str()),
                None => edge.append("main"),
            }
            edge.append(" --> ");
            edge.append(call.callee_name.as_str());
            edge.append(";\n");
            proof {
                assert(calls.deep_view()[i as int] == call@);
                assert(edge@ == lines[i as int]);
                assert(lines.take(i + 1).drop_last() =~= lines.take(i as int));
                assert(lines.take(i + 1).last() == lines[i as int]);
            }
            if !crate::impact::contains_string(&seen, &edge) {
                let ghost prev = seen.deep_view();
                let ghost prev_diagram = diagram@;
                diagram.append(edge.as_str());
                seen.push(edge);
                proof {
                    assert(seen.deep_view() =~= prev.push(lines[i as int]));
                    assert(seen.deep_view().drop_last() =~= prev);
                    assert(diagram@ =~= prev_diagram + lines[i as int]);
                }
            }
            i = i + 1;
        }
        proof {
            assert(lines.take(calls.len() as int) =~= lines);
        }
        diagram
    }

    /// The definitions of one file: nothing unless it is a workspace Rust source.
    pub fn definitions_in_file(&self, file: &SourceFile) -> (r: Vec<(String, FnDefinition)>)
        ensures
            pairs_view(r@) == file_definitions(file@),
    {
        if !is_workspace_rust_source(file) {
            let r: Vec<(String, FnDefinition)> = Vec::new();
            assert(pairs_view(r@) =~= Seq::<(Seq<char>, FnDefinitionView)>::empty());
            return r;
        }
        let rust = LanguageKind::Rust;
        let caps = source_captures(&rust, file.content.as_str(), rust.fn_query());
        if check_capture_rows(&caps) {
            definitions_from_captures(file.path.as_str(), &caps)
        } else {
            let r: Vec<(String, FnDefinition)> = Vec::new();
            assert(pairs_view(r@) =~= Seq::<(Seq<char>, FnDefinitionView)>::empty());
            r
        }
    }

    /// The function definitions of the workspace Rust sources among `files`, grouped by
    /// name.
    pub fn index_definitions(&self, files: &Vec<SourceFile>) -> (r: DefinitionIndex)
        ensures
            is_index_of(r, workspace_definitions(files@)),
    {
        let mut all: Vec<(String, FnDefinition)> = Vec::new();
        let mut i: usize = 0;
        proof {
            assert(files@.take(0) =~= Seq::<SourceFile>::empty());
            assert(pairs_view(all@) =~= Seq::<(Seq<char>, FnDefinitionView)>::empty());
        }
        while i < files.len()
            invariant
                i <= files.len(),
                pairs_view(all@) == workspace_definitions(files@.take(i as int)),
            decreases files.len() - i,
        {
            let mut found = self.definitions_in_file(&files[i]);
            let ghost prev = all@;
            let ghost part = found@;
            all.append(&mut found);
            proof {
                lemma_pairs_view_append(prev, part);
                lemma_take_step(files@, i as int);
            }
            i = i + 1;
        }
        proof {
            assert(files@.take(files.len() as int) =~= files@);
        }
        DefinitionIndex::from_pairs(all)
    }

    /// The calls in one file of functions in `definitions`: nothing unless it is a
    /// workspace Rust source.
    pub fn calls_in_file(&self, file: &SourceFile, definitions: &DefinitionIndex) -> (r: Vec<CallInfo>)
        requires
            definitions.wf(),
        ensures
            r.deep_view() == file_calls(file@, *definitions),
    {
        if !is_workspace_rust_source(file) {
            let r: Vec<CallInfo> = Vec::new();
            assert(r.deep_view() =~= Seq::<CallInfoView>::empty());
            return r;
        }
        let rust = LanguageKind::Rust;
        match source_tree(&rust, file.content.as_str()) {
            Some(tree) => {
                let caps = source_captures(&rust, file.content.as_str(), workspace_call_query());
                if check_capture_rows(&caps) {
                    calls_from_captures(file.path.as_str(), &caps, &tree, definitions, &FunctionRule::FunctionItem)
                } else {
                    let r: Vec<CallInfo> = Vec::new();
                    assert(r.deep_view() =~= Seq::<CallInfoView>::empty());
                    r
                }
            },
            None => {
                let r: Vec<CallInfo> = Vec::new();
                assert(r.deep_view() =~= Seq::<CallInfoView>::empty());
                r
            },
        }
    }

    /// The calls, in the workspace Rust sources among `files`, of functions in
    /// `definitions`, with the name of the enclosing `function_item`.
    pub fn find_calls(&self, files: &Vec<SourceFile>, definitions: &DefinitionIndex) -> (r: Vec<CallInfo>)
        requires
            definitions.wf(),
        ensures
            r.deep_view() == workspace_calls(files@, *definitions),
    {
        let mut all: Vec<CallInfo> = Vec::new();
        let mut i: usize = 0;
        proof {
            assert(files@.take(0) =~= Seq::<SourceFile>::empty());
            assert(all.deep_view() =~= Seq::<CallInfoView>::empty());
        }
        while i < files.len()
            invariant
                i <= files.len(),
                definitions.wf(),
                all.deep_view() == workspace_calls(files@.take(i as int), *definitions),
            decreases files.len() - i,
        {
            let mut found = self.calls_in_file(&files[i], definitions);
            let ghost part = found.deep_view();
            let ghost prev = all.deep_view();
            all.append(&mut found);
            proof {
                assert(all.deep_view() =~= prev + part);
                lemma_take_step(files@, i as int);
            }
            i = i + 1;
        }
        proof {
            assert(files@.take(files.len() as int) =~= files@);
        }
        all
    }

    /// Appends the measurements of every `function_item` node of the tree, in pre-order;
    /// a function is flagged above complexity 10 or length 50.
    pub fn traverse_for_metrics(&self, node: &SyntaxNode, path: &str, results: &mut Vec<FunctionMetrics>)
        requires
            tree_fits(*node),
        ensures
            final(results).deep_view() == old(results).deep_view() + metrics_of(
                *node,
                path@,
                LanguageKind::Rust,
                FunctionRule::FunctionItem,
                50,
            ),
    {
        collect_metrics(node, path, &LanguageKind::Rust, &FunctionRule::FunctionItem, 50, results);
    }

    /// One plus the number of Rust branching nodes of the tree rooted at `node`.
    pub fn calculate_complexity(&self, node: &SyntaxNode) -> (r: usize)
        requires
            tree_fits(*node),
        ensures
            r == 1 + complexity_nodes(*node, LanguageKind::Rust),
    {
        crate::analyzer::metrics::calculate_complexity(node, &LanguageKind::Rust)
    }

    /// Adds the number of Rust branching nodes of the tree rooted at `node` to `count`.
    pub fn count_complexity_nodes(&self, node: &SyntaxNode, count: &mut usize)
        requires
            tree_fits(*node),
            *old(count) + crate::syntax::node_count(*node) <= usize::MAX,
        ensures
            *final(count) == *old(count) + complexity_nodes(*node, LanguageKind::Rust),
    {
        crate::analyzer::metrics::count_complexity_nodes(node, count, &LanguageKind::Rust);
    }

    /// The measurements of one file: nothing unless it is a workspace Rust source.
    pub fn metrics_in_file(&self, file: &SourceFile) -> (r: Vec<FunctionMetrics>)
        ensures
            r.deep_view() == file_metrics(file@),
    {
        let mut results: Vec<FunctionMetrics> = Vec::new();
        proof {
            assert(results.deep_view() =~= Seq::<FunctionMetricsView>::empty());
        }
        if !is_workspace_rust_source(file) {
            return results;
        }
        match source_tree(&LanguageKind::Rust, file.content.as_str()) {
            Some(tree) => {
                if checked_node_count(&tree).is_some() {
                    self.traverse_for_metrics(&tree, file.path.as_str(), &mut results);
                    proof {
                        assert(results.deep_view() =~= metrics_of(
                            tree,
                            file@.path,
                            LanguageKind::Rust,
                            FunctionRule::FunctionItem,
                            50,
                        ));
                    }
                }
            },
            None => {},
        }
        results
    }

    /// The measurements of every `function_item` of the workspace Rust sources among
    /// `files`, file after file.
    pub fn get_metrics(&self, files: &Vec<SourceFile>) -> (r: Vec<FunctionMetrics>)
        ensures
            r.deep_view() == workspace_metrics(files@),
    {
        let mut all: Vec<FunctionMetrics> = Vec::new();
        let mut i: usize = 0;
        proof {
            assert(files@.take(0) =~= Seq::<SourceFile>::empty());
            assert(all.deep_view() =~= Seq::<FunctionMetricsView>::empty());
        }
        while i < files.len()
            invariant
                i <= files.len(),
                all.deep_view() == workspace_metrics(files@.take(i as int)),
            decreases files.len() - i,
        {
            let mut found = self.metrics_in_file(&files[i]);
            let ghost part = found.deep_view();
            let ghost prev = all.deep_view();
            all.append(&mut found);
            proof {
                assert(all.deep_view() =~= prev + part);
                lemma_take_step(files@, i as int);
            }
            i = i + 1;
        }
        proof {
            assert(files@.take(files.len() as int) =~= files@);
        }
        all
    }

    /// The cached calls affected by a change of `function_name`: its calls, then the calls
    /// of each of its callers, transitively, each function visited once, in the order of a
    /// depth-first walk that takes the most recently found caller first.
    pub fn get_impact_analysis(&self, function_name: &str) -> (r: Vec<CallInfo>)
        ensures
            r.deep_view() == impact_walk(
                self.cached_calls.deep_view(),
                function_name@,
                seq![function_name@],
                Set::empty(),
            ),
            exists|order: Seq<Seq<char>>|
                #[trigger] is_impact_order(self.cached_calls.deep_view(), function_name@, order)
                    && r.deep_view() == impacted_by(self.cached_calls.deep_view(), order),
    {
        impacted_calls(&self.cached_calls, function_name)
    }
}

} // verus!
