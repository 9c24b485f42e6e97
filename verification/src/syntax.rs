//! Syntax trees as plain values, and the tree-sitter calls that produce them.
//!
//! Parsing and query matching are done by tree-sitter; what tree-sitter hands back is
//! turned into [`SyntaxNode`] trees and [`Capture`] lists, on which the analyzers work.

use vstd::prelude::*;
use crate::languages::LanguageKind;
use crate::text::{has_substring, lemma_substring_split, splits};

verus! {

#[verifier::external_type_specification]
#[verifier::external_body]
pub struct ExLanguage(tree_sitter::Language);

/// The tree-sitter grammar of each language.
pub uninterp spec fn grammar_for(kind: LanguageKind) -> tree_sitter::Language;

/// The grammar of `kind`: the `language` function of its grammar crate (for JavaScript
/// and TypeScript the TypeScript grammar, for C and C++ the C++ grammar, for PHP the PHP
/// grammar with tags). The grammar is left to the name [`grammar_for`].
#[verifier::external_body]
pub(crate) fn grammar(kind: LanguageKind) -> (r: tree_sitter::Language)
    ensures
        r == grammar_for(kind),
{
    match kind {
        LanguageKind::Rust => tree_sitter_rust::language(),
        LanguageKind::Python => tree_sitter_python::language(),
        LanguageKind::JsTs => tree_sitter_typescript::language_typescript(),
        LanguageKind::Go => tree_sitter_go::language(),
        LanguageKind::CCpp => tree_sitter_cpp::language(),
        LanguageKind::Java => tree_sitter_java::language(),
        LanguageKind::Ruby => tree_sitter_ruby::language(),
        LanguageKind::Php => tree_sitter_php::language_php(),
        LanguageKind::Kotlin => tree_sitter_kotlin::language(),
    }
}

/// The syntax tree that tree-sitter gives for `content` with the grammar of `kind`, as a
/// [`SyntaxNode`]; `None` when the grammar cannot be loaded or parsing gives up.
pub uninterp spec fn source_syntax(kind: LanguageKind, content: Seq<char>) -> Option<SyntaxNode>;

/// The captures that tree-sitter gives for the query `query` over the syntax tree of
/// `content` with the grammar of `kind`, every capture of every match in the order the
/// matches come; `None` when the grammar cannot be loaded, parsing gives up or the query
/// does not compile.
pub uninterp spec fn source_captures_of(kind: LanguageKind, query: Seq<char>, content: Seq<char>) -> Option<
    Seq<CaptureView>,
>;

/// `tree_sitter::Parser::parse` of `content` with the grammar `language` (set with
/// `Parser::set_language`), the root converted with [`syntax_node`]. The tree is a
/// function of the grammar and the text alone, left to the name [`source_syntax`].
#[verifier::external_body]
pub(crate) fn parse_syntax(language: &tree_sitter::Language, kind: LanguageKind, content: &str) -> (r: Option<
    SyntaxNode,
>)
    requires
        *language == grammar_for(kind),
    ensures
        r == source_syntax(kind, content@),
{
    let mut parser = tree_sitter::Parser::new();
    parser.set_language(language).ok()?;
    let tree = parser.parse(content, None)?;
    Some(syntax_node(tree.root_node(), content))
}

#[verifier::external_type_specification]
#[verifier::external_body]
pub struct ExNode<'tree>(tree_sitter::Node<'tree>);

/// A tree-sitter node and everything below it as a [`SyntaxNode`], field by field:
/// position (`Node::start_byte`, `Node::end_byte`), kind (`Node::kind`), the text of its
/// `name` field (`Node::child_by_field_name`), rows (`Node::start_position`,
/// `Node::end_position`) and children (`Node::children`), converted alike. Only
/// [`parse_syntax`] uses it, on the text the tree was parsed from.
#[verifier::external_body]
fn syntax_node(node: tree_sitter::Node<'_>, content: &str) -> SyntaxNode {
    let mut children = Vec::new();
    let mut cursor = node.walk();
    for child in node.children(&mut cursor) {
        children.push(syntax_node(child, content));
    }
    let name = node.child_by_field_name("name").and_then(|n| content.get(n.byte_range()));
    SyntaxNode {
        id: (node.start_byte(), node.end_byte()),
        kind: node.kind().to_string(),
        name: name.map(|t| t.to_string()),
        start_row: node.start_position().row,
        end_row: node.end_position().row,
        children,
    }
}

/// `tree_sitter::Query::new` for `query` with the grammar `language`, run with
/// `QueryCursor::matches` over the tree that `Parser::parse` gives for `content`: every
/// capture of every match, as the captured node's position, text and start row. Tree and
/// query text are the same `content`. The captures are a function of the grammar, the
/// query and the text alone, left to the name [`source_captures_of`].
#[verifier::external_body]
pub(crate) fn parse_captures(
    language: &tree_sitter::Language,
    kind: LanguageKind,
    query: &str,
    content: &str,
) -> (r: Option<Vec<Capture>>)
    requires
        *language == grammar_for(kind),
    ensures
        r.deep_view() == source_captures_of(kind, query@, content@),
{
    let mut parser = tree_sitter::Parser::new();
    parser.set_language(language).ok()?;
    let tree = parser.parse(content, None)?;
    let query = tree_sitter::Query::new(language, query).ok()?;
    let mut cursor = tree_sitter::QueryCursor::new();
    let mut out = Vec::new();
    for m in cursor.matches(&query, tree.root_node(), content.as_bytes()) {
        for c in m.captures {
            let text = content.get(c.node.byte_range()).unwrap_or("").to_string();
            out.push(Capture { id: (c.node.start_byte(), c.node.end_byte()), text, row: c.node.start_position().row });
        }
    }
    Some(out)
}

/// A node captured by a query.
pub struct Capture {
    /// Position of the captured node: its start and end bytes.
    pub id: (usize, usize),
    /// Source text of the captured node.
    pub text: String,
    /// Zero-based row where the captured node starts.
    pub row: usize,
}

/// Mathematical value of a [`Capture`].
pub struct CaptureView {
    pub id: (usize, usize),
    pub text: Seq<char>,
    pub row: usize,
}

impl View for Capture {
    type V = CaptureView;

    open spec fn view(&self) -> CaptureView {
        CaptureView { id: self.id, text: self.text@, row: self.row }
    }
}

impl DeepView for Capture {
    type V = CaptureView;

    open spec fn deep_view(&self) -> CaptureView {
        self@
    }
}

/// Every capture starts on a row whose one-based number fits in a `usize`.
pub open spec fn capture_rows_fit(caps: Seq<CaptureView>) -> bool {
    forall|i: int| 0 <= i < caps.len() ==> #[trigger] caps[i].row < usize::MAX
}

/// Whether every capture's one-based row fits in a `usize`.
pub fn check_capture_rows(caps: &Vec<Capture>) -> (r: bool)
    ensures
        r == capture_rows_fit(caps.deep_view()),
{
    let mut i: usize = 0;
    while i < caps.len()
        invariant
            i <= caps.len(),
            forall|k: int| 0 <= k < i ==> #[trigger] caps.deep_view()[k].row < usize::MAX,
        decreases caps.len() - i,
    {
        if caps[i].row == usize::MAX {
            assert(caps.deep_view()[i as int].row == usize::MAX);
            return false;
        }
        i = i + 1;
    }
    true
}

/// A node of a parsed source file and, below it, all its descendants.
pub struct SyntaxNode {
    /// Position of the node: its start and end bytes.
    pub id: (usize, usize),
    /// The grammar's name for the node's type, e.g. `function_item`.
    pub kind: String,
    /// Source text of the node's `name` field, when it has one.
    pub name: Option<String>,
    /// Zero-based row where the node starts.
    pub start_row: usize,
    /// Zero-based row where the node ends.
    pub end_row: usize,
    pub children: Vec<SyntaxNode>,
}

/// Number of nodes in the tree rooted at `t`.
pub open spec fn node_count(t: SyntaxNode) -> nat
    decreases t,
{
    1 + forest_count(t.children@)
}

/// Number of nodes in the trees of a forest.
pub open spec fn forest_count(f: Seq<SyntaxNode>) -> nat
    decreases f,
{
    if f.len() == 0 {
        0
    } else {
        forest_count(f.drop_last()) + node_count(f.last())
    }
}

/// The rows of a node are ordered, and its one-based end row fits in a `usize`.
pub open spec fn node_rows_ok(t: SyntaxNode) -> bool {
    t.start_row <= t.end_row && t.end_row < usize::MAX
}

/// Every node of the tree rooted at `t` has ordered rows that fit in a `usize`.
pub open spec fn rows_ok(t: SyntaxNode) -> bool
    decreases t,
{
    node_rows_ok(t) && forest_rows_ok(t.children@)
}

/// Every node of a forest has ordered rows that fit in a `usize`.
pub open spec fn forest_rows_ok(f: Seq<SyntaxNode>) -> bool
    decreases f,
{
    f.len() == 0 || (forest_rows_ok(f.drop_last()) && rows_ok(f.last()))
}

/// The tree can be walked with `usize` counters: its rows are fine and it has fewer than
/// `usize::MAX` nodes.
pub open spec fn tree_fits(t: SyntaxNode) -> bool {
    rows_ok(t) && node_count(t) < usize::MAX
}

/// Facts about one tree of a forest from facts about the forest.
pub proof fn lemma_forest_member(f: Seq<SyntaxNode>, i: int)
    requires
        0 <= i < f.len(),
    ensures
        forest_rows_ok(f) ==> rows_ok(f[i]),
        node_count(f[i]) <= forest_count(f),
        forest_count(f.take(i + 1)) == forest_count(f.take(i)) + node_count(f[i]),
        forest_count(f.take(i + 1)) <= forest_count(f),
    decreases f.len(),
{
    assert(f.take(i + 1).drop_last() =~= f.take(i));
    if i < f.len() - 1 {
        lemma_forest_member(f.drop_last(), i);
        assert(f.drop_last().take(i + 1) =~= f.take(i + 1));
        assert(f.drop_last()[i] == f[i]);
    } else {
        assert(f.take(i + 1) =~= f);
    }
}

/// Checks that the tree can be walked with `usize` counters, returning its node count.
pub fn checked_node_count(t: &SyntaxNode) -> (r: Option<usize>)
    ensures
        r matches Some(n) ==> tree_fits(*t) && n == node_count(*t),
        r is None ==> !tree_fits(*t),
    decreases t,
{
    if !(t.start_row <= t.end_row && t.end_row < usize::MAX) {
        return None;
    }
    let mut total: usize = 1;
    let mut i: usize = 0;
    let ghost f = t.children@;
    proof {
        assert(f.take(0) =~= Seq::<SyntaxNode>::empty());
    }
    while i < t.children.len()
        invariant
            f == t.children@,
            i <= f.len(),
            total == 1 + forest_count(f.take(i as int)),
            forest_rows_ok(f.take(i as int)),
            total < usize::MAX,
        decreases f.len() - i,
    {
        proof {
            lemma_forest_member(f, i as int);
            assert(f.take(i + 1).drop_last() =~= f.take(i as int));
            assert(f.take(i + 1).last() == f[i as int]);
        }
        let child = checked_node_count(&t.children[i]);
        match child {
            Some(c) => {
                if c >= usize::MAX - total {
                    proof {
                        lemma_forest_member(f, i as int);
                        lemma_prefix_count_le(f, i + 1);
                    }
                    return None;
                }
                total = total + c;
            },
            None => {
                proof {
                    if tree_fits(*t) {
                        lemma_forest_member(f, i as int);
                        lemma_prefix_count_le(f, i + 1);
                    }
                }
                return None;
            },
        }
        i = i + 1;
    }
    proof {
        assert(f.take(f.len() as int) =~= f);
    }
    Some(total)
}

proof fn lemma_prefix_count_le(f: Seq<SyntaxNode>, k: int)
    requires
        0 <= k <= f.len(),
    ensures
        forest_count(f.take(k)) <= forest_count(f),
        forest_rows_ok(f) ==> forest_rows_ok(f.take(k)),
    decreases f.len() - k,
{
    if k < f.len() {
        lemma_prefix_count_le(f, k + 1);
        assert(f.take(k + 1).drop_last() =~= f.take(k));
    } else {
        assert(f.take(k) =~= f);
    }
}

/// How a node is recognized as the definition of a function that encloses a call.
pub enum FunctionRule {
    /// Its kind mentions `function` or `method`.
    FunctionOrMethod,
    /// Its kind is exactly `function_item`.
    FunctionItem,
}

/// Whether a node of kind `kind` can be an enclosing function under `rule`.
pub open spec fn is_function_kind(rule: FunctionRule, kind: Seq<char>) -> bool {
    match rule {
        FunctionRule::FunctionOrMethod => has_substring(kind, "function"@) || has_substring(kind, "method"@),
        FunctionRule::FunctionItem => kind == "function_item"@,
    }
}

/// Law: under `FunctionOrMethod` a node kind is a function kind exactly when it has
/// `function` or `method` somewhere in it (such as `function_item`, `method_definition`,
/// `method_declaration` or `function_definition`); under `FunctionItem` exactly when it is
/// `function_item`.
pub proof fn lemma_function_kinds(kind: Seq<char>)
    ensures
        is_function_kind(FunctionRule::FunctionOrMethod, kind) <==> (exists|p: Seq<char>, s: Seq<char>|
            #[trigger] splits(kind, p, "function"@, s)) || (exists|p: Seq<char>, s: Seq<char>|
            #[trigger] splits(kind, p, "method"@, s)),
        is_function_kind(FunctionRule::FunctionItem, kind) <==> kind == "function_item"@,
{
    lemma_substring_split(kind, "function"@);
    lemma_substring_split(kind, "method"@);
}

impl FunctionRule {
    /// Whether a node of kind `kind` can be an enclosing function under this rule.
    pub fn accepts(&self, kind: &str) -> (r: bool)
        ensures
            r == is_function_kind(*self, kind@),
    {
        match self {
            FunctionRule::FunctionOrMethod => crate::text::contains_str(kind, "function")
                || crate::text::contains_str(kind, "method"),
            FunctionRule::FunctionItem => crate::text::str_eq(kind, "function_item"),
        }
    }
}

/// The nodes strictly above the node at position `id`, root first, on the path to the
/// first such node in pre-order; `None` when no node has that position.
pub open spec fn ancestors_of(t: SyntaxNode, id: (usize, usize)) -> Option<Seq<SyntaxNode>>
    decreases t,
{
    if t.id == id {
        Some(Seq::empty())
    } else {
        match forest_ancestors(t.children@, id) {
            Some(p) => Some(seq![t] + p),
            None => None,
        }
    }
}

/// [`ancestors_of`] within the first tree of the forest that holds the id.
pub open spec fn forest_ancestors(f: Seq<SyntaxNode>, id: (usize, usize)) -> Option<Seq<SyntaxNode>>
    decreases f,
{
    if f.len() == 0 {
        None
    } else {
        match ancestors_of(f[0], id) {
            Some(p) => Some(p),
            None => forest_ancestors(f.drop_first(), id),
        }
    }
}

/// The name of the innermost node of `path` that encloses as a function under `rule`
/// and has a name.
pub open spec fn innermost_function_name(path: Seq<SyntaxNode>, rule: FunctionRule) -> Option<Seq<char>>
    decreases path.len(),
{
    if path.len() == 0 {
        None
    } else {
        let n = path.last();
        if is_function_kind(rule, n.kind@) && n.name is Some {
            Some(n.name->0@)
        } else {
            innermost_function_name(path.drop_last(), rule)
        }
    }
}

/// The enclosing function name of the node with id `id`, as found from the root `t`:
/// `None` when no node has the id, `Some(None)` when none of its ancestors qualifies.
pub open spec fn enclosing_function(t: SyntaxNode, id: (usize, usize), rule: FunctionRule) -> Option<Option<Seq<char>>> {
    match ancestors_of(t, id) {
        Some(p) => Some(innermost_function_name(p, rule)),
        None => None,
    }
}

proof fn lemma_innermost_prepend(t: SyntaxNode, p: Seq<SyntaxNode>, rule: FunctionRule)
    ensures
        innermost_function_name(seq![t] + p, rule) == match innermost_function_name(p, rule) {
            Some(n) => Some(n),
            None => if is_function_kind(rule, t.kind@) && t.name is Some {
                Some(t.name->0@)
            } else {
                None
            },
        },
    decreases p.len(),
{
    let q = seq![t] + p;
    if p.len() == 0 {
        assert(q.drop_last() =~= Seq::<SyntaxNode>::empty());
        assert(q.last() == t);
    } else {
        assert(q.last() == p.last());
        assert(q.drop_last() =~= seq![t] + p.drop_last());
        lemma_innermost_prepend(t, p.drop_last(), rule);
    }
}

/// Finds the enclosing function name of the node with id `id` below `t`.
pub fn find_enclosing_function(t: &SyntaxNode, id: (usize, usize), rule: &FunctionRule) -> (r: Option<Option<String>>)
    ensures
        r.deep_view() == enclosing_function(*t, id, *rule),
    decreases t,
{
    if t.id.0 == id.0 && t.id.1 == id.1 {
        return Some(None);
    }
    let ghost f = t.children@;
    let mut i: usize = 0;
    proof {
        assert(f.skip(0) =~= f);
    }
    while i < t.children.len()
        invariant
            f == t.children@,
            t.id != id,
            i <= f.len(),
            forest_ancestors(f, id) == forest_ancestors(f.skip(i as int), id),
        decreases f.len() - i,
    {
        proof {
            assert(f.skip(i as int)[0] == f[i as int]);
            assert(f.skip(i as int).drop_first() =~= f.skip(i + 1));
        }
        match find_enclosing_function(&t.children[i], id, rule) {
            Some(inner) => {
                proof {
                    let p = ancestors_of(f[i as int], id)->0;
                    lemma_innermost_prepend(*t, p, *rule);
                }
                match inner {
                    Some(n) => {
                        return Some(Some(n));
                    },
                    None => {
                        if rule.accepts(t.kind.as_str()) {
                            match &t.name {
                                Some(n) => {
                                    return Some(Some(n.clone()));
                                },
                                None => {
                                    return Some(None);
                                },
                            }
                        }
                        return Some(None);
                    },
                }
            },
            None => {},
        }
        i = i + 1;
    }
    proof {
        assert(f.skip(f.len() as int) =~= Seq::<SyntaxNode>::empty());
    }
    None
}

} // verus!
