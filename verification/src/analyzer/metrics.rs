//! Cyclomatic complexity and length of every function of a file.

use vstd::prelude::*;
use crate::languages::{LanguageKind, LanguageProvider};
use crate::syntax::{
    checked_node_count, forest_count, forest_rows_ok, is_function_kind, lemma_forest_member,
    node_count, rows_ok, tree_fits, FunctionRule, SyntaxNode,
};
use crate::analyzer::source::source_tree;
use crate::syntax::source_syntax;

verus! {

/// Measures the functions of a file.
pub struct MetricsAnalyzer;

/// Measurements of one function.
pub struct FunctionMetrics {
    /// The function's name, or `unknown`.
    pub function: String,
    pub file: String,
    /// One-based line where the function starts.
    pub line: usize,
    /// One plus the number of branching nodes within the function.
    pub cyclomatic_complexity: usize,
    /// Number of lines the function spans.
    pub length: usize,
    /// Complexity above 10, or length above the limit of the analysis.
    pub is_hell_function: bool,
}

/// Mathematical value of a [`FunctionMetrics`].
pub struct FunctionMetricsView {
    pub function: Seq<char>,
    pub file: Seq<char>,
    pub line: usize,
    pub cyclomatic_complexity: usize,
    pub length: usize,
    pub is_hell_function: bool,
}

impl View for FunctionMetrics {
    type V = FunctionMetricsView;

    open spec fn view(&self) -> FunctionMetricsView {
        FunctionMetricsView {
            function: self.function@,
            file: self.file@,
            line: self.line,
            cyclomatic_complexity: self.cyclomatic_complexity,
            length: self.length,
            is_hell_function: self.is_hell_function,
        }
    }
}

impl DeepView for FunctionMetrics {
    type V = FunctionMetricsView;

    open spec fn deep_view(&self) -> FunctionMetricsView {
        self@
    }
}

/// Number of nodes of the tree whose kind adds a branch, the root included.
pub open spec fn complexity_nodes<P: LanguageProvider>(t: SyntaxNode, provider: P) -> nat
    decreases t,
{
    (if provider.spec_is_complexity_node(t.kind@) {
        1nat
    } else {
        0nat
    }) + forest_complexity(t.children@, provider)
}

/// Number of branching nodes in the trees of a forest.
pub open spec fn forest_complexity<P: LanguageProvider>(f: Seq<SyntaxNode>, provider: P) -> nat
    decreases f,
{
    if f.len() == 0 {
        0
    } else {
        forest_complexity(f.drop_last(), provider) + complexity_nodes(f.last(), provider)
    }
}

/// The measurements of the function whose definition node is `t`.
pub open spec fn metric_of<P: LanguageProvider>(
    t: SyntaxNode,
    path: Seq<char>,
    provider: P,
    max_length: nat,
) -> FunctionMetricsView {
    let complexity = 1 + complexity_nodes(t, provider);
    let length = t.end_row - t.start_row + 1;
    FunctionMetricsView {
        function: match t.name {
            Some(n) => n@,
            None => "unknown"@,
        },
        file: path,
        line: (t.start_row + 1) as usize,
        cyclomatic_complexity: complexity as usize,
        length: length as usize,
        is_hell_function: complexity > 10 || length > max_length,
    }
}

/// The measurements of every function node of the tree, in pre-order.
pub open spec fn metrics_of<P: LanguageProvider>(
    t: SyntaxNode,
    path: Seq<char>,
    provider: P,
    rule: FunctionRule,
    max_length: nat,
) -> Seq<FunctionMetricsView>
    decreases t,
{
    (if is_function_kind(rule, t.kind@) {
        seq![metric_of(t, path, provider, max_length)]
    } else {
        Seq::empty()
    }) + forest_metrics(t.children@, path, provider, rule, max_length)
}

/// The measurements of every function node of a forest, tree after tree.
pub open spec fn forest_metrics<P: LanguageProvider>(
    f: Seq<SyntaxNode>,
    path: Seq<char>,
    provider: P,
    rule: FunctionRule,
    max_length: nat,
) -> Seq<FunctionMetricsView>
    decreases f,
{
    if f.len() == 0 {
        Seq::empty()
    } else {
        forest_metrics(f.drop_last(), path, provider, rule, max_length) + metrics_of(
            f.last(),
            path,
            provider,
            rule,
            max_length,
        )
    }
}

proof fn lemma_complexity_le_count<P: LanguageProvider>(t: SyntaxNode, provider: P)
    ensures
        complexity_nodes(t, provider) <= node_count(t),
    decreases t,
{
    lemma_forest_complexity_le_count(t.children@, provider);
}

proof fn lemma_forest_complexity_le_count<P: LanguageProvider>(f: Seq<SyntaxNode>, provider: P)
    ensures
        forest_complexity(f, provider) <= forest_count(f),
    decreases f,
{
    if f.len() > 0 {
        lemma_forest_complexity_le_count(f.drop_last(), provider);
        lemma_complexity_le_count(f.last(), provider);
    }
}

/// The measurements of the functions in the text `content` of file `path`, parsed with
/// the grammar of `provider`: none when the text does not parse or its tree is too large
/// to count, else [`metrics_of`] its tree.
pub open spec fn metrics_in_source<P: LanguageProvider>(
    path: Seq<char>,
    provider: P,
    content: Seq<char>,
    rule: FunctionRule,
    max_length: nat,
) -> Seq<FunctionMetricsView> {
    match source_syntax(provider.spec_grammar(), content) {
        Some(t) => if tree_fits(t) {
            metrics_of(t, path, provider, rule, max_length)
        } else {
            Seq::empty()
        },
        None => Seq::empty(),
    }
}

/// Law: in Rust a node adds a branch exactly when it is an `if`, a `for` loop, a `while`
/// loop, a `match` arm, or a `&&` or `||` operator; the complexity count of a tree adds one
/// for its root exactly then, and counts its subtrees alike.
pub proof fn lemma_rust_branches(t: SyntaxNode)
    ensures
        LanguageKind::Rust.spec_is_complexity_node(t.kind@) <==> (t.kind@ == "if_expression"@ || t.kind@
            == "for_expression"@ || t.kind@ == "while_expression"@ || t.kind@ == "match_arm"@ || t.kind@
            == "&&"@ || t.kind@ == "||"@),
        complexity_nodes(t, LanguageKind::Rust) == (if t.kind@ == "if_expression"@ || t.kind@ == "for_expression"@
            || t.kind@ == "while_expression"@ || t.kind@ == "match_arm"@ || t.kind@ == "&&"@ || t.kind@ == "||"@ {
            1nat
        } else {
            0nat
        }) + forest_complexity(t.children@, LanguageKind::Rust),
{
}

/// A measurement is consistent with its function: it names the file, has a complexity, a
/// length and a line of at least one, and flags the function exactly when its complexity
/// exceeds 10 or its length exceeds `max_length`.
pub open spec fn is_consistent_metric(m: FunctionMetricsView, path: Seq<char>, max_length: nat) -> bool {
    &&& m.file == path
    &&& m.cyclomatic_complexity >= 1
    &&& m.length >= 1
    &&& m.line >= 1
    &&& (m.is_hell_function <==> (m.cyclomatic_complexity > 10 || m.length > max_length))
}

proof fn lemma_tree_metrics_consistent<P: LanguageProvider>(
    t: SyntaxNode,
    path: Seq<char>,
    provider: P,
    rule: FunctionRule,
    max_length: nat,
)
    requires
        rows_ok(t),
        node_count(t) < usize::MAX,
    ensures
        forall|i: int|
            0 <= i < metrics_of(t, path, provider, rule, max_length).len() ==> #[trigger] is_consistent_metric(
                metrics_of(t, path, provider, rule, max_length)[i],
                path,
                max_length,
            ),
    decreases t,
{
    lemma_complexity_le_count(t, provider);
    lemma_forest_metrics_consistent(t.children@, path, provider, rule, max_length);
    let own: Seq<FunctionMetricsView> = if is_function_kind(rule, t.kind@) {
        seq![metric_of(t, path, provider, max_length)]
    } else {
        Seq::empty()
    };
    let rest = forest_metrics(t.children@, path, provider, rule, max_length);
    assert(metrics_of(t, path, provider, rule, max_length) == own + rest);
    assert forall|i: int| 0 <= i < own.len() implies #[trigger] is_consistent_metric(own[i], path, max_length) by {
        assert(own[i] == metric_of(t, path, provider, max_length));
    }
    assert forall|i: int| 0 <= i < (own + rest).len() implies #[trigger] is_consistent_metric(
        (own + rest)[i],
        path,
        max_length,
    ) by {
        if i < own.len() {
            assert((own + rest)[i] == own[i]);
        } else {
            assert((own + rest)[i] == rest[i - own.len()]);
        }
    }
}

proof fn lemma_forest_metrics_consistent<P: LanguageProvider>(
    f: Seq<SyntaxNode>,
    path: Seq<char>,
    provider: P,
    rule: FunctionRule,
    max_length: nat,
)
    requires
        forest_rows_ok(f),
        forest_count(f) < usize::MAX,
    ensures
        forall|i: int|
            0 <= i < forest_metrics(f, path, provider, rule, max_length).len() ==> #[trigger] is_consistent_metric(
                forest_metrics(f, path, provider, rule, max_length)[i],
                path,
                max_length,
            ),
    decreases f,
{
    if f.len() > 0 {
        lemma_forest_metrics_consistent(f.drop_last(), path, provider, rule, max_length);
        lemma_tree_metrics_consistent(f.last(), path, provider, rule, max_length);
        let a = forest_metrics(f.drop_last(), path, provider, rule, max_length);
        let b = metrics_of(f.last(), path, provider, rule, max_length);
        assert(forest_metrics(f, path, provider, rule, max_length) == a + b);
        assert forall|i: int| 0 <= i < (a + b).len() implies #[trigger] is_consistent_metric(
            (a + b)[i],
            path,
            max_length,
        ) by {
            if i < a.len() {
                assert((a + b)[i] == a[i]);
            } else {
                assert((a + b)[i] == b[i - a.len()]);
            }
        }
    }
}

/// Every measurement of a tree that can be walked is consistent with its function (see
/// [`is_consistent_metric`]): in particular a function is flagged as a hell function
/// exactly when its complexity exceeds 10 or its length exceeds the limit.
pub proof fn lemma_metrics_are_consistent<P: LanguageProvider>(
    t: SyntaxNode,
    path: Seq<char>,
    provider: P,
    rule: FunctionRule,
    max_length: nat,
)
    requires
        tree_fits(t),
    ensures
        forall|i: int|
            0 <= i < metrics_of(t, path, provider, rule, max_length).len() ==> #[trigger] is_consistent_metric(
                metrics_of(t, path, provider, rule, max_length)[i],
                path,
                max_length,
            ),
{
    lemma_tree_metrics_consistent(t, path, provider, rule, max_length);
}

/// Law: every measurement the analyzer gives for a file is of that file, and flags its
/// function exactly when the complexity exceeds 10 or the length exceeds 100 lines.
pub proof fn lemma_analyzer_flags<P: LanguageProvider>(path: Seq<char>, provider: P, content: Seq<char>)
    ensures
        forall|i: int|
            0 <= i < metrics_in_source(path, provider, content, FunctionRule::FunctionOrMethod, 100).len()
                ==> #[trigger] metrics_in_source(path, provider, content, FunctionRule::FunctionOrMethod, 100)[i].file
                == path && (metrics_in_source(path, provider, content, FunctionRule::FunctionOrMethod, 100)[i].is_hell_function
                <==> (metrics_in_source(path, provider, content, FunctionRule::FunctionOrMethod, 100)[i].cyclomatic_complexity
                > 10 || metrics_in_source(path, provider, content, FunctionRule::FunctionOrMethod, 100)[i].length > 100)),
{
    match source_syntax(provider.spec_grammar(), content) {
        Some(t) => {
            if tree_fits(t) {
                lemma_metrics_are_consistent(t, path, provider, FunctionRule::FunctionOrMethod, 100);
                let m = metrics_of(t, path, provider, FunctionRule::FunctionOrMethod, 100);
                assert(metrics_in_source(path, provider, content, FunctionRule::FunctionOrMethod, 100) == m);
                assert forall|i: int| 0 <= i < m.len() implies #[trigger] m[i].file == path && (m[i].is_hell_function
                    <==> (m[i].cyclomatic_complexity > 10 || m[i].length > 100)) by {
                    assert(is_consistent_metric(m[i], path, 100));
                }
            }
        },
        None => {},
    }
}

proof fn lemma_child_fits(t: SyntaxNode, i: int)
    requires
        tree_fits(t),
        0 <= i < t.children@.len(),
    ensures
        tree_fits(t.children@[i]),
        forest_count(t.children@.take(i + 1)) < node_count(t),
{
    lemma_forest_member(t.children@, i);
}

proof fn lemma_take_step(f: Seq<SyntaxNode>, i: int)
    requires
        0 <= i < f.len(),
    ensures
        f.take(i + 1).drop_last() == f.take(i),
        f.take(i + 1).last() == f[i],
{
    assert(f.take(i + 1).drop_last() =~= f.take(i));
}

/// Adds the number of branching nodes of the tree rooted at `node` to `count`.
pub fn count_complexity_nodes<P: LanguageProvider>(node: &SyntaxNode, count: &mut usize, provider: &P)
    requires
        tree_fits(*node),
        *old(count) + node_count(*node) <= usize::MAX,
    ensures
        *final(count) == *old(count) + complexity_nodes(*node, *provider),
    decreases node,
{
    proof {
        lemma_complexity_le_count(*node, *provider);
    }
    if provider.is_complexity_node(node.kind.as_str()) {
        *count = *count + 1;
    }
    let ghost start = *old(count);
    let ghost f = node.children@;
    let mut i: usize = 0;
    proof {
        assert(f.take(0) =~= Seq::<SyntaxNode>::empty());
    }
    while i < node.children.len()
        invariant
            f == node.children@,
            tree_fits(*node),
            i <= f.len(),
            start + node_count(*node) <= usize::MAX,
            *count == start + (if provider.spec_is_complexity_node(node.kind@) {
                1nat
            } else {
                0nat
            }) + forest_complexity(f.take(i as int), *provider),
        decreases f.len() - i,
    {
        proof {
            lemma_child_fits(*node, i as int);
            lemma_take_step(f, i as int);
            lemma_forest_complexity_le_count(f.take(i as int), *provider);
            lemma_forest_member(f, i as int);
            lemma_complexity_le_count(f[i as int], *provider);
        }
        count_complexity_nodes(&node.children[i], count, provider);
        i = i + 1;
    }
    proof {
        assert(f.take(f.len() as int) =~= f);
    }
}

/// One plus the number of branching nodes of the tree rooted at `node`.
pub fn calculate_complexity<P: LanguageProvider>(node: &SyntaxNode, provider: &P) -> (r: usize)
    requires
        tree_fits(*node),
    ensures
        r == 1 + complexity_nodes(*node, *provider),
{
    let mut complexity: usize = 1;
    count_complexity_nodes(node, &mut complexity, provider);
    complexity
}

/// Appends the measurements of every function node of the tree, in pre-order.
pub fn collect_metrics<P: LanguageProvider>(
    node: &SyntaxNode,
    path: &str,
    provider: &P,
    rule: &FunctionRule,
    max_length: usize,
    results: &mut Vec<FunctionMetrics>,
)
    requires
        tree_fits(*node),
    ensures
        final(results).deep_view() == old(results).deep_view() + metrics_of(
            *node,
            path@,
            *provider,
            *rule,
            max_length as nat,
        ),
    decreases node,
{
    let ghost start = old(results).deep_view();
    let ghost own: Seq<FunctionMetricsView> = if is_function_kind(*rule, node.kind@) {
        seq![metric_of(*node, path@, *provider, max_length as nat)]
    } else {
        Seq::empty()
    };
    if rule.accepts(node.kind.as_str()) {
        let function = match &node.name {
            Some(n) => n.clone(),
            None => String::from_str("unknown"),
        };
        let complexity = calculate_complexity(node, provider);
        let start_line = node.start_row + 1;
        let end_line = node.end_row + 1;
        let length = end_line - start_line + 1;
        let record = FunctionMetrics {
            function,
            file: String::from_str(path),
            line: start_line,
            cyclomatic_complexity: complexity,
            length,
            is_hell_function: complexity > 10 || length > max_length,
        };
        results.push(record);
    }
    proof {
        assert(results.deep_view() =~= start + own);
    }
    let ghost f = node.children@;
    let mut i: usize = 0;
    proof {
        assert(f.take(0) =~= Seq::<SyntaxNode>::empty());
        assert(results.deep_view() =~= start + own + forest_metrics(f.take(0), path@, *provider, *rule, max_length as nat));
    }
    while i < node.children.len()
        invariant
            f == node.children@,
            tree_fits(*node),
            i <= f.len(),
            results.deep_view() == start + own + forest_metrics(
                f.take(i as int),
                path@,
                *provider,
                *rule,
                max_length as nat,
            ),
        decreases f.len() - i,
    {
        proof {
            lemma_child_fits(*node, i as int);
            lemma_take_step(f, i as int);
        }
        collect_metrics(&node.children[i], path, provider, rule, max_length, results);
        proof {
            assert(results.deep_view() =~= start + own + forest_metrics(
                f.take(i + 1),
                path@,
                *provider,
                *rule,
                max_length as nat,
            ));
        }
        i = i + 1;
    }
    proof {
        assert(f.take(f.len() as int) =~= f);
    }
}

impl MetricsAnalyzer {
    /// Appends the measurements of every node whose kind mentions `function` or `method`,
    /// in pre-order; a function is flagged above complexity 10 or length 100.
    pub fn traverse_for_metrics<P: LanguageProvider>(
        &self,
        node: &SyntaxNode,
        path: &str,
        results: &mut Vec<FunctionMetrics>,
        provider: &P,
    )
        requires
            tree_fits(*node),
        ensures
            final(results).deep_view() == old(results).deep_view() + metrics_of(
                *node,
                path@,
                *provider,
                FunctionRule::FunctionOrMethod,
                100,
            ),
    {
        collect_metrics(node, path, provider, &FunctionRule::FunctionOrMethod, 100, results);
    }

    /// One plus the number of branching nodes of the tree rooted at `node`.
    pub fn calculate_complexity<P: LanguageProvider>(&self, node: &SyntaxNode, provider: &P) -> (r: usize)
        requires
            tree_fits(*node),
        ensures
            r == 1 + complexity_nodes(*node, *provider),
    {
        calculate_complexity(node, provider)
    }

    /// Adds the number of branching nodes of the tree rooted at `node` to `count`.
    pub fn count_complexity_nodes<P: LanguageProvider>(&self, node: &SyntaxNode, count: &mut usize, provider: &P)
        requires
            tree_fits(*node),
            *old(count) + node_count(*node) <= usize::MAX,
        ensures
            *final(count) == *old(count) + complexity_nodes(*node, *provider),
    {
        count_complexity_nodes(node, count, provider);
    }

    /// The measurements of the functions of one file, in pre-order of the syntax tree;
    /// none when the file cannot be parsed or its tree is too large to count.
    pub fn analyze<P: LanguageProvider>(&self, path: &str, content: &str, provider: &P) -> (r: Vec<FunctionMetrics>)
        ensures
            r.deep_view() == metrics_in_source(
                path@,
                *provider,
                content@,
                FunctionRule::FunctionOrMethod,
                100,
            ),
    {
        let mut results: Vec<FunctionMetrics> = Vec::new();
        match source_tree(provider, content) {
            Some(tree) => {
                if checked_node_count(&tree).is_some() {
                    self.traverse_for_metrics(&tree, path, &mut results, provider);
                    proof {
                        assert(results.deep_view() =~= metrics_of(
                            tree,
                            path@,
                            *provider,
                            FunctionRule::FunctionOrMethod,
                            100,
                        ));
                    }
                } else {
                    assert(results.deep_view() =~= Seq::<FunctionMetricsView>::empty());
                }
            },
            None => {
                assert(results.deep_view() =~= Seq::<FunctionMetricsView>::empty());
            },
        }
        results
    }
}

} // verus!
