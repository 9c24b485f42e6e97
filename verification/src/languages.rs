//! The supported languages: grammar, queries and complexity rules of each, and the
//! registry that maps file extensions to them.

use vstd::prelude::*;
use crate::syntax::{grammar, grammar_for};
use crate::text::{has_substring, lemma_occurs_in_split};

verus! {

/// What the analyzers need to know of a language.
pub trait LanguageProvider {
    /// The text of [`LanguageProvider::fn_query`].
    spec fn spec_fn_query(&self) -> Seq<char>;

    /// The text of [`LanguageProvider::import_query`].
    spec fn spec_import_query(&self) -> Seq<char>;

    /// The text of [`LanguageProvider::security_query`].
    spec fn spec_security_query(&self) -> Seq<char>;

    /// The text of [`LanguageProvider::api_query`].
    spec fn spec_api_query(&self) -> Seq<char>;

    /// The text of [`LanguageProvider::outbound_query`].
    spec fn spec_outbound_query(&self) -> Seq<char>;

    /// The text of [`LanguageProvider::error_query`].
    spec fn spec_error_query(&self) -> Seq<char>;

    /// Whether a node kind adds a branch to cyclomatic complexity.
    spec fn spec_is_complexity_node(&self, kind: Seq<char>) -> bool;

    /// Which of the supported grammars parses this language.
    spec fn spec_grammar(&self) -> LanguageKind;

    /// Which of the supported grammars parses this language.
    fn language_kind(&self) -> (k: LanguageKind)
        ensures
            k == self.spec_grammar(),
    ;

    /// The tree-sitter grammar.
    fn language(&self) -> (r: tree_sitter::Language)
        ensures
            r == grammar_for(self.spec_grammar()),
    ;

    /// Query capturing the names of function definitions.
    fn fn_query(&self) -> (q: &'static str)
        ensures
            q@ == self.spec_fn_query(),
    ;

    /// Query capturing import statements.
    fn import_query(&self) -> (q: &'static str)
        ensures
            q@ == self.spec_import_query(),
    ;

    /// Query capturing potentially dangerous calls.
    fn security_query(&self) -> (q: &'static str)
        ensures
            q@ == self.spec_security_query(),
    ;

    /// Query capturing API route declarations.
    fn api_query(&self) -> (q: &'static str)
        ensures
            q@ == self.spec_api_query(),
    ;

    /// Query capturing calls to outside systems.
    fn outbound_query(&self) -> (q: &'static str)
        ensures
            q@ == self.spec_outbound_query(),
    ;

    /// Query capturing error-handling anti-patterns.
    fn error_query(&self) -> (q: &'static str)
        ensures
            q@ == self.spec_error_query(),
    ;

    /// Whether a node of kind `kind` adds a branch to cyclomatic complexity.
    fn is_complexity_node(&self, kind: &str) -> (b: bool)
        ensures
            b == self.spec_is_complexity_node(kind@),
    ;
}

/// The languages with a grammar and queries.
#[derive(Clone, Copy, Debug, PartialEq, Eq, Structural)]
pub enum LanguageKind {
    /// Rust.
    Rust,
    /// Python.
    Python,
    /// JavaScript and TypeScript (parsed with the TypeScript grammar).
    JsTs,
    /// Go.
    Go,
    /// C and C++ (parsed with the C++ grammar).
    CCpp,
    /// Java.
    Java,
    /// Ruby.
    Ruby,
    /// PHP.
    Php,
    /// Kotlin.
    Kotlin,
}

impl LanguageProvider for LanguageKind {
    open spec fn spec_fn_query(&self) -> Seq<char> {
        match self {
            LanguageKind::Rust => "(function_item name: (identifier) @fn_name)"@,
            LanguageKind::Python => "(function_definition name: (identifier) @fn_name)"@,
            LanguageKind::JsTs => "(function_declaration name: (identifier) @fn_name) (method_definition name: (property_identifier) @fn_name)"@,
            LanguageKind::Go => "(function_declaration name: (identifier) @fn_name) (method_declaration name: (field_identifier) @fn_name)"@,
            LanguageKind::CCpp => "(function_definition declarator: (function_declarator declarator: (identifier) @fn_name))"@,
            LanguageKind::Java => "(method_declaration name: (identifier) @fn_name) (constructor_declaration name: (identifier) @fn_name)"@,
            LanguageKind::Ruby => "(method name: (identifier) @fn_name) (singleton_method name: (identifier) @fn_name)"@,
            LanguageKind::Php => "(function_definition name: (name) @fn_name) (method_declaration name: (name) @fn_name)"@,
            LanguageKind::Kotlin => "(function_declaration name: (simple_identifier) @fn_name)"@,
        }
    }

    open spec fn spec_import_query(&self) -> Seq<char> {
        match self {
            LanguageKind::Rust => "(use_declaration) @import"@,
            LanguageKind::Python => "(import_statement) @import (import_from_statement) @import"@,
            LanguageKind::JsTs => "(import_statement) @import (call_expression function: (identifier) @require_call (#eq? @require_call \"require\")) @import"@,
            LanguageKind::Go => "(import_declaration) @import"@,
            LanguageKind::CCpp => "(preproc_include) @import"@,
            LanguageKind::Java => "(import_declaration) @import"@,
            LanguageKind::Ruby => "(call method: (identifier) @require_call (#match? @require_call \"require|load\")) @import"@,
            LanguageKind::Php => "(include_expression) @import (require_expression) @import (namespace_use_declaration) @import"@,
            LanguageKind::Kotlin => "(import_header) @import"@,
        }
    }

    open spec fn spec_security_query(&self) -> Seq<char> {
        match self {
            LanguageKind::Rust => "(call_expression function: (identifier) @name (#match? @name \"eval|exec|system|panic|unsafe\")) @security (unsafe_block) @security"@,
            LanguageKind::Python => "(call function: (identifier) @name (#match? @name \"eval|exec|os\\\\.system|subprocess|pickle\")) @security"@,
            LanguageKind::JsTs => "(call_expression function: (identifier) @name (#match? @name \"eval|exec|child_process|fs\\\\.readSync\")) @security"@,
            LanguageKind::Go => "(call_expression function: (selector_expression field: (field_identifier) @name (#match? @name \"Command|UnsafePointer|Panic\"))) @security"@,
            LanguageKind::CCpp => "(call_expression function: (identifier) @name (#match? @name \"system|exec|gets|strcpy|sprintf|scanf\")) @security"@,
            LanguageKind::Java => "(method_invocation name: (identifier) @name (#match? @name \"exec|eval|System\\\\.exit|getRuntime\")) @security"@,
            LanguageKind::Ruby => "(call method: (identifier) @name (#match? @name \"eval|system|exec|exit\")) @security"@,
            LanguageKind::Php => "(function_call_expression function: (name) @name (#match? @name \"eval|exec|system|passthru|shell_exec\")) @security"@,
            LanguageKind::Kotlin => "(call_expression (user_type (reference_expression (simple_identifier) @name (#match? @name \"eval|exec|panic|System\\\\.exit\")))) @security"@,
        }
    }

    open spec fn spec_api_query(&self) -> Seq<char> {
        match self {
            LanguageKind::Rust => "(attribute (path) @attr_path (#match? @path \"get|post|put|delete|patch|route\")) @api"@,
            LanguageKind::Python => "(decorator (call function: (attribute object: (identifier) @obj attribute: (identifier) @name (#match? @name \"get|post|put|delete|route\")))) @api"@,
            LanguageKind::JsTs => "(call_expression function: (member_expression property: (property_identifier) @name (#match? @name \"get|post|put|delete|use|route\"))) @api"@,
            LanguageKind::Go => "(call_expression function: (selector_expression field: (field_identifier) @name (#match? @name \"Get|Post|Put|Delete|Handle|HandleFunc\"))) @api"@,
            LanguageKind::CCpp => "(attribute (identifier) @name (#match? @name \"get|post|put|delete|route\")) @api"@,
            LanguageKind::Java => "(annotation name: (identifier) @name (#match? @name \"GetMapping|PostMapping|PutMapping|DeleteMapping|RequestMapping\")) @api"@,
            LanguageKind::Ruby => "(call method: (identifier) @name (#match? @name \"get|post|put|delete|patch|resource\")) @api"@,
            LanguageKind::Php => "(attribute (attribute_group_clause_list (attribute name: (name) @name (#match? @name \"Get|Post|Put|Delete|Route\")))) @api"@,
            LanguageKind::Kotlin => "(annotation (user_type (reference_expression (simple_identifier) @name (#match? @name \"GetMapping|PostMapping|PutMapping|DeleteMapping|Path\")))) @api"@,
        }
    }

    open spec fn spec_outbound_query(&self) -> Seq<char> {
        match self {
            LanguageKind::Rust => "(call_expression function: (field_expression field: (field_identifier) @name (#match? @name \"get|post|put|delete|request|send\"))) @outbound"@,
            LanguageKind::Python => "(call function: (attribute attribute: (identifier) @name (#match? @name \"get|post|put|delete|request|fetch\"))) @outbound"@,
            LanguageKind::JsTs => "(call_expression function: (identifier) @name (#match? @name \"fetch|axios\")) @outbound"@,
            LanguageKind::Go => "(call_expression function: (selector_expression field: (field_identifier) @name (#match? @name \"Get|Post|Do|NewRequest\"))) @outbound"@,
            LanguageKind::CCpp => "(call_expression function: (identifier) @name (#match? @name \"connect|send|sendto|write|curl_easy_perform\")) @outbound"@,
            LanguageKind::Java => "(method_invocation name: (identifier) @name (#match? @name \"send|execute|exchange|getForObject\")) @outbound"@,
            LanguageKind::Ruby => "(call method: (identifier) @name (#match? @name \"get|post|request|get_response\")) @outbound"@,
            LanguageKind::Php => "(function_call_expression function: (name) @name (#match? @name \"curl_init|file_get_contents|get_headers\")) @outbound"@,
            LanguageKind::Kotlin => "(call_expression (user_type (reference_expression (simple_identifier) @name (#match? @name \"send|execute|exchange|getForObject\")))) @outbound"@,
        }
    }

    open spec fn spec_error_query(&self) -> Seq<char> {
        match self {
            LanguageKind::Rust => "(call_expression function: (field_expression field: (field_identifier) @name (#match? @name \"unwrap|expect\"))) @error"@,
            LanguageKind::Python => "(except_clause (block (pass_statement))) @error_swallowed"@,
            LanguageKind::JsTs => "(catch_clause (statement_block) @block (#match? @block \"^\\\\{\\\\s*\\\\}\")) @error_swallowed"@,
            LanguageKind::Go => "(if_statement condition: (binary_expression left: (identifier) @err (#eq? @err \"err\") right: (nil) @nil (#eq? @nil \"nil\")) consequence: (block)) @error_unchecked"@,
            LanguageKind::CCpp => "(if_statement condition: (parenthesized_expression (binary_expression left: (identifier) @res right: (number_literal) @val (#eq? @val \"-1\")))) @error_unchecked"@,
            LanguageKind::Java => "(catch_clause (block) @block (#match? @block \"^\\\\{\\\\s*\\\\}\")) @error_swallowed"@,
            LanguageKind::Ruby => "(rescue (then (block (pass_statement)))) @error_swallowed"@,
            LanguageKind::Php => "(catch_clause (compound_statement) @block (#match? @block \"^\\\\{\\\\s*\\\\}\")) @error_swallowed"@,
            LanguageKind::Kotlin => "(catch_clause (block) @block (#match? @block \"^\\\\{\\\\s*\\\\}\")) @error_swallowed"@,
        }
    }

    open spec fn spec_is_complexity_node(&self, kind: Seq<char>) -> bool {
        match self {
            LanguageKind::Rust => kind == "if_expression"@
                || kind == "for_expression"@
                || kind == "while_expression"@
                || kind == "match_arm"@
                || kind == "&&"@
                || kind == "||"@,
            LanguageKind::Python => kind == "if_statement"@
                || kind == "for_statement"@
                || kind == "while_statement"@
                || kind == "case_statement"@
                || kind == "and"@
                || kind == "or"@,
            LanguageKind::JsTs => kind == "if_statement"@
                || kind == "for_statement"@
                || kind == "while_statement"@
                || kind == "switch_case"@
                || kind == "&&"@
                || kind == "||"@
                || kind == "conditional_expression"@,
            LanguageKind::Go => kind == "if_statement"@
                || kind == "for_statement"@
                || kind == "while_statement"@
                || kind == "case_statement"@
                || kind == "&&"@
                || kind == "||"@,
            LanguageKind::CCpp => kind == "if_statement"@
                || kind == "for_statement"@
                || kind == "while_statement"@
                || kind == "case_statement"@
                || kind == "&&"@
                || kind == "||"@
                || kind == "conditional_expression"@,
            LanguageKind::Java => kind == "if_statement"@
                || kind == "for_statement"@
                || kind == "while_statement"@
                || kind == "switch_label"@
                || kind == "&&"@
                || kind == "||"@
                || kind == "ternary_expression"@,
            LanguageKind::Ruby => kind == "if"@
                || kind == "unless"@
                || kind == "for"@
                || kind == "while"@
                || kind == "until"@
                || kind == "when"@
                || kind == "&&"@
                || kind == "||"@
                || kind == "and"@
                || kind == "or"@,
            LanguageKind::Php => kind == "if_statement"@
                || kind == "for_statement"@
                || kind == "foreach_statement"@
                || kind == "while_statement"@
                || kind == "case_statement"@
                || kind == "&&"@
                || kind == "||"@
                || kind == "and"@
                || kind == "or"@
                || kind == "conditional_expression"@,
            LanguageKind::Kotlin => kind == "if_expression"@
                || kind == "for_statement"@
                || kind == "while_statement"@
                || kind == "when_entry"@
                || kind == "&&"@
                || kind == "||"@,
        }
    }

    open spec fn spec_grammar(&self) -> LanguageKind {
        *self
    }

    fn language_kind(&self) -> (k: LanguageKind) {
        *self
    }

    fn language(&self) -> (r: tree_sitter::Language) {
        grammar(*self)
    }

    fn fn_query(&self) -> (q: &'static str) {
        match self {
            LanguageKind::Rust => "(function_item name: (identifier) @fn_name)",
            LanguageKind::Python => "(function_definition name: (identifier) @fn_name)",
            LanguageKind::JsTs => "(function_declaration name: (identifier) @fn_name) (method_definition name: (property_identifier) @fn_name)",
            LanguageKind::Go => "(function_declaration name: (identifier) @fn_name) (method_declaration name: (field_identifier) @fn_name)",
            LanguageKind::CCpp => "(function_definition declarator: (function_declarator declarator: (identifier) @fn_name))",
            LanguageKind::Java => "(method_declaration name: (identifier) @fn_name) (constructor_declaration name: (identifier) @fn_name)",
            LanguageKind::Ruby => "(method name: (identifier) @fn_name) (singleton_method name: (identifier) @fn_name)",
            LanguageKind::Php => "(function_definition name: (name) @fn_name) (method_declaration name: (name) @fn_name)",
            LanguageKind::Kotlin => "(function_declaration name: (simple_identifier) @fn_name)",
        }
    }

    fn import_query(&self) -> (q: &'static str) {
        match self {
            LanguageKind::Rust => "(use_declaration) @import",
            LanguageKind::Python => "(import_statement) @import (import_from_statement) @import",
            LanguageKind::JsTs => "(import_statement) @import (call_expression function: (identifier) @require_call (#eq? @require_call \"require\")) @import",
            LanguageKind::Go => "(import_declaration) @import",
            LanguageKind::CCpp => "(preproc_include) @import",
            LanguageKind::Java => "(import_declaration) @import",
            LanguageKind::Ruby => "(call method: (identifier) @require_call (#match? @require_call \"require|load\")) @import",
            LanguageKind::Php => "(include_expression) @import (require_expression) @import (namespace_use_declaration) @import",
            LanguageKind::Kotlin => "(import_header) @import",
        }
    }

    fn security_query(&self) -> (q: &'static str) {
        match self {
            LanguageKind::Rust => "(call_expression function: (identifier) @name (#match? @name \"eval|exec|system|panic|unsafe\")) @security (unsafe_block) @security",
            LanguageKind::Python => "(call function: (identifier) @name (#match? @name \"eval|exec|os\\\\.system|subprocess|pickle\")) @security",
            LanguageKind::JsTs => "(call_expression function: (identifier) @name (#match? @name \"eval|exec|child_process|fs\\\\.readSync\")) @security",
            LanguageKind::Go => "(call_expression function: (selector_expression field: (field_identifier) @name (#match? @name \"Command|UnsafePointer|Panic\"))) @security",
            LanguageKind::CCpp => "(call_expression function: (identifier) @name (#match? @name \"system|exec|gets|strcpy|sprintf|scanf\")) @security",
            LanguageKind::Java => "(method_invocation name: (identifier) @name (#match? @name \"exec|eval|System\\\\.exit|getRuntime\")) @security",
            LanguageKind::Ruby => "(call method: (identifier) @name (#match? @name \"eval|system|exec|exit\")) @security",
            LanguageKind::Php => "(function_call_expression function: (name) @name (#match? @name \"eval|exec|system|passthru|shell_exec\")) @security",
            LanguageKind::Kotlin => "(call_expression (user_type (reference_expression (simple_identifier) @name (#match? @name \"eval|exec|panic|System\\\\.exit\")))) @security",
        }
    }

    fn api_query(&self) -> (q: &'static str) {
        match self {
            LanguageKind::Rust => "(attribute (path) @attr_path (#match? @path \"get|post|put|delete|patch|route\")) @api",
            LanguageKind::Python => "(decorator (call function: (attribute object: (identifier) @obj attribute: (identifier) @name (#match? @name \"get|post|put|delete|route\")))) @api",
            LanguageKind::JsTs => "(call_expression function: (member_expression property: (property_identifier) @name (#match? @name \"get|post|put|delete|use|route\"))) @api",
            LanguageKind::Go => "(call_expression function: (selector_expression field: (field_identifier) @name (#match? @name \"Get|Post|Put|Delete|Handle|HandleFunc\"))) @api",
            LanguageKind::CCpp => "(attribute (identifier) @name (#match? @name \"get|post|put|delete|route\")) @api",
            LanguageKind::Java => "(annotation name: (identifier) @name (#match? @name \"GetMapping|PostMapping|PutMapping|DeleteMapping|RequestMapping\")) @api",
            LanguageKind::Ruby => "(call method: (identifier) @name (#match? @name \"get|post|put|delete|patch|resource\")) @api",
            LanguageKind::Php => "(attribute (attribute_group_clause_list (attribute name: (name) @name (#match? @name \"Get|Post|Put|Delete|Route\")))) @api",
            LanguageKind::Kotlin => "(annotation (user_type (reference_expression (simple_identifier) @name (#match? @name \"GetMapping|PostMapping|PutMapping|DeleteMapping|Path\")))) @api",
        }
    }

    fn outbound_query(&self) -> (q: &'static str) {
        match self {
            LanguageKind::Rust => "(call_expression function: (field_expression field: (field_identifier) @name (#match? @name \"get|post|put|delete|request|send\"))) @outbound",
            LanguageKind::Python => "(call function: (attribute attribute: (identifier) @name (#match? @name \"get|post|put|delete|request|fetch\"))) @outbound",
            LanguageKind::JsTs => "(call_expression function: (identifier) @name (#match? @name \"fetch|axios\")) @outbound",
            LanguageKind::Go => "(call_expression function: (selector_expression field: (field_identifier) @name (#match? @name \"Get|Post|Do|NewRequest\"))) @outbound",
            LanguageKind::CCpp => "(call_expression function: (identifier) @name (#match? @name \"connect|send|sendto|write|curl_easy_perform\")) @outbound",
            LanguageKind::Java => "(method_invocation name: (identifier) @name (#match? @name \"send|execute|exchange|getForObject\")) @outbound",
            LanguageKind::Ruby => "(call method: (identifier) @name (#match? @name \"get|post|request|get_response\")) @outbound",
            LanguageKind::Php => "(function_call_expression function: (name) @name (#match? @name \"curl_init|file_get_contents|get_headers\")) @outbound",
            LanguageKind::Kotlin => "(call_expression (user_type (reference_expression (simple_identifier) @name (#match? @name \"send|execute|exchange|getForObject\")))) @outbound",
        }
    }

    fn error_query(&self) -> (q: &'static str) {
        match self {
            LanguageKind::Rust => "(call_expression function: (field_expression field: (field_identifier) @name (#match? @name \"unwrap|expect\"))) @error",
            LanguageKind::Python => "(except_clause (block (pass_statement))) @error_swallowed",
            LanguageKind::JsTs => "(catch_clause (statement_block) @block (#match? @block \"^\\\\{\\\\s*\\\\}\")) @error_swallowed",
            LanguageKind::Go => "(if_statement condition: (binary_expression left: (identifier) @err (#eq? @err \"err\") right: (nil) @nil (#eq? @nil \"nil\")) consequence: (block)) @error_unchecked",
            LanguageKind::CCpp => "(if_statement condition: (parenthesized_expression (binary_expression left: (identifier) @res right: (number_literal) @val (#eq? @val \"-1\")))) @error_unchecked",
            LanguageKind::Java => "(catch_clause (block) @block (#match? @block \"^\\\\{\\\\s*\\\\}\")) @error_swallowed",
            LanguageKind::Ruby => "(rescue (then (block (pass_statement)))) @error_swallowed",
            LanguageKind::Php => "(catch_clause (compound_statement) @block (#match? @block \"^\\\\{\\\\s*\\\\}\")) @error_swallowed",
            LanguageKind::Kotlin => "(catch_clause (block) @block (#match? @block \"^\\\\{\\\\s*\\\\}\")) @error_swallowed",
        }
    }

    fn is_complexity_node(&self, kind: &str) -> (b: bool) {
        match self {
            LanguageKind::Rust => crate::text::str_eq(kind, "if_expression")
                || crate::text::str_eq(kind, "for_expression")
                || crate::text::str_eq(kind, "while_expression")
                || crate::text::str_eq(kind, "match_arm")
                || crate::text::str_eq(kind, "&&")
                || crate::text::str_eq(kind, "||"),
            LanguageKind::Python => crate::text::str_eq(kind, "if_statement")
                || crate::text::str_eq(kind, "for_statement")
                || crate::text::str_eq(kind, "while_statement")
                || crate::text::str_eq(kind, "case_statement")
                || crate::text::str_eq(kind, "and")
                || crate::text::str_eq(kind, "or"),
            LanguageKind::JsTs => crate::text::str_eq(kind, "if_statement")
                || crate::text::str_eq(kind, "for_statement")
                || crate::text::str_eq(kind, "while_statement")
                || crate::text::str_eq(kind, "switch_case")
                || crate::text::str_eq(kind, "&&")
                || crate::text::str_eq(kind, "||")
                || crate::text::str_eq(kind, "conditional_expression"),
            LanguageKind::Go => crate::text::str_eq(kind, "if_statement")
                || crate::text::str_eq(kind, "for_statement")
                || crate::text::str_eq(kind, "while_statement")
                || crate::text::str_eq(kind, "case_statement")
                || crate::text::str_eq(kind, "&&")
                || crate::text::str_eq(kind, "||"),
            LanguageKind::CCpp => crate::text::str_eq(kind, "if_statement")
                || crate::text::str_eq(kind, "for_statement")
                || crate::text::str_eq(kind, "while_statement")
                || crate::text::str_eq(kind, "case_statement")
                || crate::text::str_eq(kind, "&&")
                || crate::text::str_eq(kind, "||")
                || crate::text::str_eq(kind, "conditional_expression"),
            LanguageKind::Java => crate::text::str_eq(kind, "if_statement")
                || crate::text::str_eq(kind, "for_statement")
                || crate::text::str_eq(kind, "while_statement")
                || crate::text::str_eq(kind, "switch_label")
                || crate::text::str_eq(kind, "&&")
                || crate::text::str_eq(kind, "||")
                || crate::text::str_eq(kind, "ternary_expression"),
            LanguageKind::Ruby => crate::text::str_eq(kind, "if")
                || crate::text::str_eq(kind, "unless")
                || crate::text::str_eq(kind, "for")
                || crate::text::str_eq(kind, "while")
                || crate::text::str_eq(kind, "until")
                || crate::text::str_eq(kind, "when")
                || crate::text::str_eq(kind, "&&")
                || crate::text::str_eq(kind, "||")
                || crate::text::str_eq(kind, "and")
                || crate::text::str_eq(kind, "or"),
            LanguageKind::Php => crate::text::str_eq(kind, "if_statement")
                || crate::text::str_eq(kind, "for_statement")
                || crate::text::str_eq(kind, "foreach_statement")
                || crate::text::str_eq(kind, "while_statement")
                || crate::text::str_eq(kind, "case_statement")
                || crate::text::str_eq(kind, "&&")
                || crate::text::str_eq(kind, "||")
                || crate::text::str_eq(kind, "and")
                || crate::text::str_eq(kind, "or")
                || crate::text::str_eq(kind, "conditional_expression"),
            LanguageKind::Kotlin => crate::text::str_eq(kind, "if_expression")
                || crate::text::str_eq(kind, "for_statement")
                || crate::text::str_eq(kind, "while_statement")
                || crate::text::str_eq(kind, "when_entry")
                || crate::text::str_eq(kind, "&&")
                || crate::text::str_eq(kind, "||"),
        }
    }
}

/// Law: the node kinds that add a branch to cyclomatic complexity, for each language:
/// its conditionals, its loops, the arms or cases of its multi-way branches, its
/// short-circuit operators and, where it has one, its conditional expression; no other
/// kind counts.
pub proof fn lemma_branch_kinds(kind: Seq<char>)
    ensures
        LanguageKind::Rust.spec_is_complexity_node(kind) <==> set!["if_expression"@, "for_expression"@, "while_expression"@, "match_arm"@, "&&"@, "||"@].contains(kind),
        LanguageKind::Python.spec_is_complexity_node(kind) <==> set!["if_statement"@, "for_statement"@, "while_statement"@, "case_statement"@, "and"@, "or"@].contains(kind),
        LanguageKind::JsTs.spec_is_complexity_node(kind) <==> set!["if_statement"@, "for_statement"@, "while_statement"@, "switch_case"@, "&&"@, "||"@, "conditional_expression"@].contains(kind),
        LanguageKind::Go.spec_is_complexity_node(kind) <==> set!["if_statement"@, "for_statement"@, "while_statement"@, "case_statement"@, "&&"@, "||"@].contains(kind),
        LanguageKind::CCpp.spec_is_complexity_node(kind) <==> set!["if_statement"@, "for_statement"@, "while_statement"@, "case_statement"@, "&&"@, "||"@, "conditional_expression"@].contains(kind),
        LanguageKind::Java.spec_is_complexity_node(kind) <==> set!["if_statement"@, "for_statement"@, "while_statement"@, "switch_label"@, "&&"@, "||"@, "ternary_expression"@].contains(kind),
        LanguageKind::Ruby.spec_is_complexity_node(kind) <==> set!["if"@, "unless"@, "for"@, "while"@, "until"@, "when"@, "&&"@, "||"@, "and"@, "or"@].contains(kind),
        LanguageKind::Php.spec_is_complexity_node(kind) <==> set!["if_statement"@, "for_statement"@, "foreach_statement"@, "while_statement"@, "case_statement"@, "&&"@, "||"@, "and"@, "or"@, "conditional_expression"@].contains(kind),
        LanguageKind::Kotlin.spec_is_complexity_node(kind) <==> set!["if_expression"@, "for_statement"@, "while_statement"@, "when_entry"@, "&&"@, "||"@].contains(kind),
{
}

/// Law: the import query of each language captures, as `@import`, the statements by which
/// it imports: Python both `import x` and `from x import y`, JavaScript and TypeScript
/// `import` statements, Rust `use` declarations, Go and Java import declarations, C and
/// C++ `#include`s, Kotlin import headers, and PHP includes, requires and `use`
/// declarations.
pub proof fn lemma_import_queries()
    ensures
        has_substring(LanguageKind::Python.spec_import_query(), "(import_statement) @import"@),
        has_substring(LanguageKind::Python.spec_import_query(), "(import_from_statement) @import"@),
        has_substring(LanguageKind::JsTs.spec_import_query(), "(import_statement) @import"@),
        has_substring(LanguageKind::Rust.spec_import_query(), "(use_declaration) @import"@),
        has_substring(LanguageKind::Go.spec_import_query(), "(import_declaration) @import"@),
        has_substring(LanguageKind::Java.spec_import_query(), "(import_declaration) @import"@),
        has_substring(LanguageKind::CCpp.spec_import_query(), "(preproc_include) @import"@),
        has_substring(LanguageKind::Kotlin.spec_import_query(), "(import_header) @import"@),
        has_substring(LanguageKind::Php.spec_import_query(), "(include_expression) @import"@),
        has_substring(LanguageKind::Php.spec_import_query(), "(require_expression) @import"@),
        has_substring(LanguageKind::Php.spec_import_query(), "(namespace_use_declaration) @import"@),
{
    assert(has_substring(LanguageKind::Python.spec_import_query(), "(import_statement) @import"@)
        && has_substring(LanguageKind::Python.spec_import_query(), "(import_from_statement) @import"@)) by {
        reveal_strlit("(import_statement) @import (import_from_statement) @import");
        reveal_strlit("(import_statement) @import");
        reveal_strlit("(import_from_statement) @import");
        reveal_strlit(" ");
        let py = LanguageKind::Python.spec_import_query();
        let a = "(import_statement) @import"@;
        let b = "(import_from_statement) @import"@;
        assert(py =~= Seq::<char>::empty() + a + (" "@ + b));
        lemma_occurs_in_split(Seq::empty(), a, " "@ + b);
        assert(py =~= a + " "@ + b + Seq::<char>::empty());
        lemma_occurs_in_split(a + " "@, b, Seq::empty());
    }
    assert(has_substring(LanguageKind::JsTs.spec_import_query(), "(import_statement) @import"@)) by {
        reveal_strlit(
            "(import_statement) @import (call_expression function: (identifier) @require_call (#eq? @require_call \"require\")) @import",
        );
        reveal_strlit("(import_statement) @import");
        let js = LanguageKind::JsTs.spec_import_query();
        let rest = js.subrange(26, js.len() as int);
        assert(js =~= Seq::<char>::empty() + "(import_statement) @import"@ + rest);
        lemma_occurs_in_split(Seq::empty(), "(import_statement) @import"@, rest);
    }
    assert(has_substring(LanguageKind::Rust.spec_import_query(), "(use_declaration) @import"@)) by {
        let q = "(use_declaration) @import"@;
        assert(q =~= Seq::<char>::empty() + q + Seq::<char>::empty());
        lemma_occurs_in_split(Seq::empty(), q, Seq::empty());
    }
    assert(has_substring(LanguageKind::Go.spec_import_query(), "(import_declaration) @import"@)) by {
        let q = "(import_declaration) @import"@;
        assert(q =~= Seq::<char>::empty() + q + Seq::<char>::empty());
        lemma_occurs_in_split(Seq::empty(), q, Seq::empty());
    }
    assert(has_substring(LanguageKind::CCpp.spec_import_query(), "(preproc_include) @import"@)) by {
        let q = "(preproc_include) @import"@;
        assert(q =~= Seq::<char>::empty() + q + Seq::<char>::empty());
        lemma_occurs_in_split(Seq::empty(), q, Seq::empty());
    }
    assert(has_substring(LanguageKind::Kotlin.spec_import_query(), "(import_header) @import"@)) by {
        let q = "(import_header) @import"@;
        assert(q =~= Seq::<char>::empty() + q + Seq::<char>::empty());
        lemma_occurs_in_split(Seq::empty(), q, Seq::empty());
    }
    assert(has_substring(LanguageKind::Php.spec_import_query(), "(include_expression) @import"@)
        && has_substring(LanguageKind::Php.spec_import_query(), "(require_expression) @import"@)
        && has_substring(LanguageKind::Php.spec_import_query(), "(namespace_use_declaration) @import"@)) by {
        reveal_strlit("(include_expression) @import (require_expression) @import (namespace_use_declaration) @import");
        reveal_strlit("(include_expression) @import");
        reveal_strlit("(require_expression) @import");
        reveal_strlit("(namespace_use_declaration) @import");
        reveal_strlit(" ");
        let php = LanguageKind::Php.spec_import_query();
        let a = "(include_expression) @import"@;
        let b = "(require_expression) @import"@;
        let c = "(namespace_use_declaration) @import"@;
        assert(php =~= Seq::<char>::empty() + a + (" "@ + b + " "@ + c));
        lemma_occurs_in_split(Seq::empty(), a, " "@ + b + " "@ + c);
        assert(php =~= a + " "@ + b + (" "@ + c));
        lemma_occurs_in_split(a + " "@, b, " "@ + c);
        assert(php =~= a + " "@ + b + " "@ + c + Seq::<char>::empty());
        lemma_occurs_in_split(a + " "@ + b + " "@, c, Seq::empty());
    }
}

/// The extension table: each file extension with the language of its files.
pub open spec fn registry_table() -> Seq<(Seq<char>, LanguageKind)> {
    seq![
        ("rs"@, LanguageKind::Rust),
        ("py"@, LanguageKind::Python),
        ("js"@, LanguageKind::JsTs),
        ("jsx"@, LanguageKind::JsTs),
        ("ts"@, LanguageKind::JsTs),
        ("tsx"@, LanguageKind::JsTs),
        ("go"@, LanguageKind::Go),
        ("java"@, LanguageKind::Java),
        ("rb"@, LanguageKind::Ruby),
        ("php"@, LanguageKind::Php),
        ("kt"@, LanguageKind::Kotlin),
        ("kts"@, LanguageKind::Kotlin),
        ("c"@, LanguageKind::CCpp),
        ("h"@, LanguageKind::CCpp),
        ("cpp"@, LanguageKind::CCpp),
        ("hpp"@, LanguageKind::CCpp),
        ("cc"@, LanguageKind::CCpp),
        ("cxx"@, LanguageKind::CCpp),
    ]
}

/// The language of the first entry of `table` with extension `ext`.
pub open spec fn first_match(table: Seq<(Seq<char>, LanguageKind)>, ext: Seq<char>) -> Option<LanguageKind>
    decreases table.len(),
{
    if table.len() == 0 {
        None
    } else if table[0].0 == ext {
        Some(table[0].1)
    } else {
        first_match(table.drop_first(), ext)
    }
}

/// Length, first and last character of an extension, as numbers.
spec fn extension_key(e: Seq<char>) -> (int, int, int) {
    (e.len() as int, e[0] as int, e[e.len() - 1] as int)
}

/// Law: the registry table lists each extension once, so every listed extension finds
/// the language it is listed with.
pub proof fn lemma_registry_lookup(i: int)
    requires
        0 <= i < registry_table().len(),
    ensures
        first_match(registry_table(), registry_table()[i].0) == Some(registry_table()[i].1),
{
    reveal_strlit("rs");
    reveal_strlit("py");
    reveal_strlit("js");
    reveal_strlit("jsx");
    reveal_strlit("ts");
    reveal_strlit("tsx");
    reveal_strlit("go");
    reveal_strlit("java");
    reveal_strlit("rb");
    reveal_strlit("php");
    reveal_strlit("kt");
    reveal_strlit("kts");
    reveal_strlit("c");
    reveal_strlit("h");
    reveal_strlit("cpp");
    reveal_strlit("hpp");
    reveal_strlit("cc");
    reveal_strlit("cxx");
    let t = registry_table();
    assert(t[0].0 == "rs"@);
    assert(extension_key(t[0].0) == (2int, 114int, 115int));
    assert(t[1].0 == "py"@);
    assert(extension_key(t[1].0) == (2int, 112int, 121int));
    assert(t[2].0 == "js"@);
    assert(extension_key(t[2].0) == (2int, 106int, 115int));
    assert(t[3].0 == "jsx"@);
    assert(extension_key(t[3].0) == (3int, 106int, 120int));
    assert(t[4].0 == "ts"@);
    assert(extension_key(t[4].0) == (2int, 116int, 115int));
    assert(t[5].0 == "tsx"@);
    assert(extension_key(t[5].0) == (3int, 116int, 120int));
    assert(t[6].0 == "go"@);
    assert(extension_key(t[6].0) == (2int, 103int, 111int));
    assert(t[7].0 == "java"@);
    assert(extension_key(t[7].0) == (4int, 106int, 97int));
    assert(t[8].0 == "rb"@);
    assert(extension_key(t[8].0) == (2int, 114int, 98int));
    assert(t[9].0 == "php"@);
    assert(extension_key(t[9].0) == (3int, 112int, 112int));
    assert(t[10].0 == "kt"@);
    assert(extension_key(t[10].0) == (2int, 107int, 116int));
    assert(t[11].0 == "kts"@);
    assert(extension_key(t[11].0) == (3int, 107int, 115int));
    assert(t[12].0 == "c"@);
    assert(extension_key(t[12].0) == (1int, 99int, 99int));
    assert(t[13].0 == "h"@);
    assert(extension_key(t[13].0) == (1int, 104int, 104int));
    assert(t[14].0 == "cpp"@);
    assert(extension_key(t[14].0) == (3int, 99int, 112int));
    assert(t[15].0 == "hpp"@);
    assert(extension_key(t[15].0) == (3int, 104int, 112int));
    assert(t[16].0 == "cc"@);
    assert(extension_key(t[16].0) == (2int, 99int, 99int));
    assert(t[17].0 == "cxx"@);
    assert(extension_key(t[17].0) == (3int, 99int, 120int));
    assert forall|a: int, b: int| 0 <= a < b < t.len() implies t[a].0 != t[b].0 by {
        if t[a].0 == t[b].0 {
            assert(extension_key(t[a].0) == extension_key(t[b].0));
        }
    }
    lemma_first_match_unique(t, i);
}

proof fn lemma_first_match_unique(table: Seq<(Seq<char>, LanguageKind)>, i: int)
    requires
        0 <= i < table.len(),
        forall|a: int, b: int| 0 <= a < b < table.len() ==> table[a].0 != table[b].0,
    ensures
        first_match(table, table[i].0) == Some(table[i].1),
    decreases table.len(),
{
    if i > 0 {
        assert(table[0].0 != table[i].0);
        lemma_first_match_unique(table.drop_first(), i - 1);
    }
}

/// Maps file extensions to the language of their files.
pub struct LanguageRegistry {
    providers: Vec<(&'static str, LanguageKind)>,
}

impl LanguageRegistry {
    /// The registry's extension table.
    pub closed spec fn table(&self) -> Seq<(Seq<char>, LanguageKind)> {
        self.providers@.map_values(|p: (&'static str, LanguageKind)| (p.0@, p.1))
    }

    /// The registry of all supported languages.
    pub fn new() -> (r: LanguageRegistry)
        ensures
            r.table() == registry_table(),
    {
        let mut providers: Vec<(&'static str, LanguageKind)> = Vec::new();
        providers.push(("rs", LanguageKind::Rust));
        providers.push(("py", LanguageKind::Python));
        providers.push(("js", LanguageKind::JsTs));
        providers.push(("jsx", LanguageKind::JsTs));
        providers.push(("ts", LanguageKind::JsTs));
        providers.push(("tsx", LanguageKind::JsTs));
        providers.push(("go", LanguageKind::Go));
        providers.push(("java", LanguageKind::Java));
        providers.push(("rb", LanguageKind::Ruby));
        providers.push(("php", LanguageKind::Php));
        providers.push(("kt", LanguageKind::Kotlin));
        providers.push(("kts", LanguageKind::Kotlin));
        providers.push(("c", LanguageKind::CCpp));
        providers.push(("h", LanguageKind::CCpp));
        providers.push(("cpp", LanguageKind::CCpp));
        providers.push(("hpp", LanguageKind::CCpp));
        providers.push(("cc", LanguageKind::CCpp));
        providers.push(("cxx", LanguageKind::CCpp));
        let r = LanguageRegistry { providers };
        assert(r.table() =~= registry_table());
        r
    }

    /// The language of files with extension `ext` (without the dot), if supported.
    pub fn get_provider(&self, ext: &str) -> (r: Option<LanguageKind>)
        ensures
            r == first_match(self.table(), ext@),
    {
        let mut i: usize = 0;
        let ghost t = self.table();
        proof {
            assert(t.skip(0) =~= t);
        }
        while i < self.providers.len()
            invariant
                t == self.table(),
                i <= self.providers.len(),
                first_match(t, ext@) == first_match(t.skip(i as int), ext@),
            decreases self.providers.len() - i,
        {
            proof {
                assert(t.skip(i as int)[0] == t[i as int]);
                assert(t.skip(i as int).drop_first() =~= t.skip(i + 1));
            }
            let (e, kind) = self.providers[i];
            if crate::text::str_eq(e, ext) {
                return Some(kind);
            }
            i = i + 1;
        }
        None
    }
}

impl Default for LanguageRegistry {
    fn default() -> (r: LanguageRegistry)
        ensures
            r.table() == registry_table(),
    {
        LanguageRegistry::new()
    }
}

} // verus!
