//! Arguments of the analysis tools and the selection logic behind the refactoring request.

pub mod call_graph;

use vstd::prelude::*;
use crate::index::DefinitionIndex;
use crate::index::first_appearances;
use crate::state::{is_index_of, workspace_calls, workspace_definitions, SharedState};
use crate::text::{decimal, decimal_string};
use crate::types::{CallInfo, CallInfoView, FnDefinitionView, SourceFile};

verus! {

/// Arguments of the call-graph analysis.
#[derive(Debug, Default)]
pub struct CallGraphArgs {
    /// Root directory of the project to analyze.
    pub path: String,
}

/// Arguments of the refactoring request.
#[derive(Debug, Default)]
pub struct RefactorSuggestionArgs {
    /// The function to get suggestions for; the whole workspace when absent.
    pub function_name: Option<String>,
}

/// Arguments of the impact analysis.
#[derive(Debug, Default)]
pub struct ImpactAnalysisArgs {
    /// The function whose change is analyzed.
    pub function_name: String,
}

/// Arguments of the architecture lint.
#[derive(Debug, Default)]
pub struct ArchLintArgs {
    /// Root directory of the project to lint.
    pub path: String,
    /// Custom architecture rules in JSON format.
    pub rules: Option<String>,
}

/// Arguments of the metrics analysis.
#[derive(Debug, Default)]
pub struct AnalyzeMetricsArgs {
    /// Root directory of the project to measure.
    pub path: String,
}

/// Arguments of the dependency analysis.
#[derive(Debug, Default)]
pub struct AnalyzeDepsArgs {
    /// Root directory of the project to analyze.
    pub path: String,
}

/// Arguments of the architecture pattern detection.
#[derive(Debug, Default)]
pub struct DetectArchPatternArgs {
    /// Root directory of the project to inspect.
    pub path: String,
}

/// Arguments of the blast-radius analysis.
#[derive(Debug, Default)]
pub struct BlastRadiusArgs {
    /// Root directory of the project.
    pub path: String,
    /// Target symbol (function name) to analyze.
    pub target_symbol: Option<String>,
    /// Target file path to analyze.
    pub target_file: Option<String>,
}

/// Arguments of the dead-code search.
#[derive(Debug, Default)]
pub struct FindDeadCodeArgs {
    /// Root directory of the project to search.
    pub path: String,
}

/// Arguments of the project summary.
#[derive(Debug, Default)]
pub struct SummarizeProjectArgs {
    /// Root directory of the project to summarize.
    pub path: String,
}

/// Arguments of the tools that only need a root directory.
#[derive(Debug, Default)]
pub struct GenericPathArgs {
    /// Root directory of the project.
    pub path: String,
}

/// The first `limit` elements of `names`.
pub open spec fn first_names(names: Seq<Seq<char>>, limit: nat) -> Seq<Seq<char>> {
    if names.len() <= limit {
        names
    } else {
        names.take(limit as int)
    }
}

/// The function names given to the assistant as context: for a targeted request, the
/// related names when there are any, else the first 50 known names; for the whole
/// workspace, the first 100 known names.
pub open spec fn context_symbols_of(known: Seq<Seq<char>>, targeted: bool, related: Seq<Seq<char>>) -> Seq<Seq<char>> {
    if targeted {
        if related.len() == 0 {
            first_names(known, 50)
        } else {
            related
        }
    } else {
        first_names(known, 100)
    }
}

/// Law: for the whole workspace the context names are the first 100 known names (all of
/// them when there are fewer); for a targeted request they are the related names when
/// there are any, else the first 50 known names.
pub proof fn lemma_context_limits(known: Seq<Seq<char>>, targeted: bool, related: Seq<Seq<char>>)
    ensures
        !targeted ==> context_symbols_of(known, targeted, related).len() == (if known.len() <= 100 {
            known.len()
        } else {
            100
        }),
        targeted && related.len() == 0 ==> context_symbols_of(known, targeted, related).len() == (if known.len()
            <= 50 {
            known.len()
        } else {
            50
        }),
        !(targeted && related.len() > 0) ==> forall|i: int|
            0 <= i < context_symbols_of(known, targeted, related).len() ==> #[trigger] context_symbols_of(
                known,
                targeted,
                related,
            )[i] == known[i],
        targeted && related.len() > 0 ==> context_symbols_of(known, targeted, related) == related,
{
}

/// Copies of the first `limit` strings of `names`.
pub fn take_names(names: &Vec<String>, limit: usize) -> (r: Vec<String>)
    ensures
        r.deep_view() == first_names(names.deep_view(), limit as nat),
{
    let mut r: Vec<String> = Vec::new();
    let mut i: usize = 0;
    while i < names.len() && i < limit
        invariant
            i <= names.len(),
            i <= limit,
            r@.len() == i,
            forall|k: int| 0 <= k < i ==> #[trigger] r@[k]@ == names@[k]@,
        decreases names.len() - i,
    {
        r.push(names[i].clone());
        i = i + 1;
    }
    proof {
        if names.len() <= limit {
            assert(r.deep_view() =~= names.deep_view());
        } else {
            assert(r.deep_view() =~= names.deep_view().take(limit as int));
        }
    }
    r
}

/// The function names given to the assistant as context (see [`context_symbols_of`]).
pub fn context_symbols(known: &Vec<String>, targeted: bool, related: Vec<String>) -> (r: Vec<String>)
    ensures
        r.deep_view() == context_symbols_of(known.deep_view(), targeted, related.deep_view()),
{
    if targeted {
        if related.len() == 0 {
            take_names(known, 50)
        } else {
            related
        }
    } else {
        take_names(known, 100)
    }
}

/// The request text, before the workspace summary.
pub open spec fn request_intro() -> Seq<char> {
    "The following is a code map summary based on the Call Graph of the current project:\n"@
}

/// The request text, between the summary and the target.
pub open spec fn request_middle() -> Seq<char> {
    "\n\nPlease provide refactoring suggestions for '"@
}

/// The request text, after the target.
pub open spec fn request_outro() -> Seq<char> {
    "' from an architectural perspective. Specifically, suggest ways to improve coupling and cohesion."@
}

/// What is refactored: the named function, or the whole workspace.
pub open spec fn refactor_target_of(function_name: Option<Seq<char>>) -> Seq<char> {
    match function_name {
        Some(n) => n,
        None => "the whole workspace"@,
    }
}

/// The message that asks the assistant for refactoring suggestions.
pub fn refactor_request_text(summary: &str, function_name: &Option<String>) -> (r: String)
    ensures
        r@ == request_intro() + summary@ + request_middle() + refactor_target_of(function_name.deep_view())
            + request_outro(),
{
    let mut text = String::from_str(
        "The following is a code map summary based on the Call Graph of the current project:\n",
    );
    text.append(summary);
    text.append("\n\nPlease provide refactoring suggestions for '");
    match function_name {
        Some(n) => text.append(n.as_str()),
        None => text.append("the whole workspace"),
    }
    text.append(
        "' from an architectural perspective. Specifically, suggest ways to improve coupling and cohesion.",
    );
    text
}

/// Shown when no workspace has been analyzed yet.
pub fn no_workspace_text() -> (r: String)
    ensures
        r@ == "No workspace analyzed yet."@,
{
    String::from_str("No workspace analyzed yet.")
}

/// Shown when the assistant gives no text.
pub fn no_suggestion_text() -> (r: String)
    ensures
        r@ == "Failed to receive a response from the AI."@,
{
    String::from_str("Failed to receive a response from the AI.")
}

/// What the call-graph analysis of a workspace finds.
pub struct CallGraphReport {
    /// The function definitions, grouped by name.
    pub definitions: DefinitionIndex,
    /// The calls of those functions.
    pub calls: Vec<CallInfo>,
}

/// The call-graph analysis of the workspace under `root`, whose files are `files`: records
/// `root` as the last analyzed root, indexes the function definitions of the workspace
/// Rust sources, finds the calls of them, and caches both in the state.
pub fn analyze_call_graph(state: &mut SharedState, root: String, files: &Vec<SourceFile>) -> (r: CallGraphReport)
    ensures
        final(state).last_root == Some(root),
        is_index_of(r.definitions, workspace_definitions(files@)),
        r.calls.deep_view() == workspace_calls(files@, r.definitions),
        is_index_of(final(state).cached_definitions, workspace_definitions(files@)),
        final(state).cached_calls.deep_view() == r.calls.deep_view(),
{
    state.last_root = Some(root);
    let definitions = state.index_definitions(files);
    let calls = state.find_calls(files, &definitions);
    let mut cached: Vec<CallInfo> = Vec::new();
    let mut i: usize = 0;
    while i < calls.len()
        invariant
            i <= calls.len(),
            cached.deep_view() == calls.deep_view().take(i as int),
        decreases calls.len() - i,
    {
        let ghost prev = cached.deep_view();
        cached.push(calls[i].duplicate());
        proof {
            assert(cached.deep_view() =~= prev.push(calls[i as int]@));
            assert(calls.deep_view().take(i + 1) =~= calls.deep_view().take(i as int).push(calls[i as int]@));
        }
        i = i + 1;
    }
    proof {
        assert(calls.deep_view().take(i as int) =~= calls.deep_view());
    }
    state.cached_definitions = definitions.duplicate();
    state.cached_calls = cached;
    proof {
        assert(is_index_of(state.cached_definitions, workspace_definitions(files@)));
    }
    CallGraphReport { definitions, calls }
}

/// What `format!("{:?}", names)` gives for a list of strings with these characters.
pub uninterp spec fn debug_list(names: Seq<Seq<char>>) -> Seq<char>;

/// The `Debug` text of a list of strings, through `format!`: the list in brackets, each
/// string quoted with its special characters escaped. The text is left to the name
/// [`debug_list`].
#[verifier::external_body]
fn debug_names(names: &Vec<String>) -> (r: String)
    ensures
        r@ == debug_list(names.deep_view()),
{
    format!("{:?}", names)
}

/// The workspace summary given to the assistant.
pub open spec fn summary_of(root: Seq<char>, total: nat, names: Seq<Seq<char>>) -> Seq<char> {
    "Workspace: "@ + root + "\nTotal Definitions Found: "@ + decimal(total) + "\nRelevant/Related Functions: "@
        + debug_list(names)
}

/// The workspace summary: the root, the number of distinct function names, and the
/// names given as context.
pub fn workspace_summary_text(root: &str, total: usize, names: &Vec<String>) -> (r: String)
    ensures
        r@ == summary_of(root@, total as nat, names.deep_view()),
{
    let mut text = String::from_str("Workspace: ");
    text.append(root);
    text.append("\nTotal Definitions Found: ");
    let count = decimal_string(total);
    text.append(count.as_str());
    text.append("\nRelevant/Related Functions: ");
    let listed = debug_names(names);
    text.append(listed.as_str());
    text
}

/// The summary behind a refactoring request: before any analysis, the notice that no
/// workspace was analyzed; after one, the summary of the definitions of `files` (the files
/// of the last analyzed root), with the context names chosen from the indexed names and
/// `related` (see [`context_symbols_of`]).
pub fn refactor_summary(
    state: &SharedState,
    files: &Vec<SourceFile>,
    function_name: &Option<String>,
    related: Vec<String>,
) -> (r: String)
    ensures
        match state.last_root {
            None => r@ == "No workspace analyzed yet."@,
            Some(root) => {
                let names = first_appearances(workspace_definitions(files@));
                r@ == summary_of(root@, names.len(), context_symbols_of(names, function_name is Some, related.deep_view()))
            },
        },
{
    match &state.last_root {
        None => no_workspace_text(),
        Some(root) => {
            let definitions = state.index_definitions(files);
            let known = definitions.keys();
            let names = context_symbols(&known, function_name.is_some(), related);
            workspace_summary_text(root.as_str(), definitions.len(), &names)
        },
    }
}

} // verus!
