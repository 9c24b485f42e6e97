use architect::analyzer::SymbolAnalyzer;
use architect::languages::{LanguageKind, LanguageProvider, LanguageRegistry};
use architect::text::{contains_str, decimal_string, str_eq, trim_string, white_space};

#[test]
fn str_eq_compares_characters() {
    assert!(str_eq("abc", "abc"));
    assert!(!str_eq("abc", "abd"));
    assert!(!str_eq("abc", "ab"));
    assert!(str_eq("", ""));
}

#[test]
fn contains_str_finds_substrings() {
    assert!(contains_str("use crate::x;", "crate::"));
    assert!(contains_str("anything", ""));
    assert!(!contains_str("use std::io;", "./"));
    assert!(!contains_str("ab", "abc"));
    assert!(contains_str("function_item", "function"));
}

#[test]
fn trim_string_strips_unicode_white_space() {
    assert_eq!(trim_string("  use std::io;\n"), "use std::io;");
    assert_eq!(trim_string("\u{3000}x y\u{a0}"), "x y");
    assert_eq!(trim_string(" \t\n"), "");
    assert_eq!(trim_string(""), "");
    assert_eq!(trim_string("a"), "a");
}

#[test]
fn white_space_matches_std() {
    for c in ['\t', '\n', ' ', '\u{85}', '\u{2000}', '\u{3000}', 'a', '_', '\u{200b}'] {
        assert_eq!(white_space(c), c.is_whitespace());
    }
}

#[test]
fn decimal_string_matches_to_string() {
    for n in [0usize, 7, 10, 42, 1234, 99999, usize::MAX] {
        assert_eq!(decimal_string(n), n.to_string());
    }
}

#[test]
fn registry_maps_extensions() {
    let registry = LanguageRegistry::new();
    assert_eq!(registry.get_provider("rs"), Some(LanguageKind::Rust));
    assert_eq!(registry.get_provider("py"), Some(LanguageKind::Python));
    assert_eq!(registry.get_provider("tsx"), Some(LanguageKind::JsTs));
    assert_eq!(registry.get_provider("jsx"), Some(LanguageKind::JsTs));
    assert_eq!(registry.get_provider("kts"), Some(LanguageKind::Kotlin));
    assert_eq!(registry.get_provider("hpp"), Some(LanguageKind::CCpp));
    assert_eq!(registry.get_provider("cxx"), Some(LanguageKind::CCpp));
    assert_eq!(registry.get_provider("php"), Some(LanguageKind::Php));
    assert_eq!(registry.get_provider("rb"), Some(LanguageKind::Ruby));
    assert_eq!(registry.get_provider("java"), Some(LanguageKind::Java));
    assert_eq!(registry.get_provider("go"), Some(LanguageKind::Go));
    assert_eq!(registry.get_provider("md"), None);
    assert_eq!(registry.get_provider(""), None);
    assert_eq!(registry.get_provider(".rs"), None);
    let default = LanguageRegistry::default();
    assert_eq!(default.get_provider("c"), Some(LanguageKind::CCpp));
}

#[test]
fn complexity_nodes_per_language() {
    assert!(LanguageKind::Rust.is_complexity_node("match_arm"));
    assert!(!LanguageKind::Rust.is_complexity_node("if_statement"));
    assert!(LanguageKind::Python.is_complexity_node("and"));
    assert!(LanguageKind::JsTs.is_complexity_node("conditional_expression"));
    assert!(!LanguageKind::Go.is_complexity_node("conditional_expression"));
    assert!(LanguageKind::Java.is_complexity_node("ternary_expression"));
    assert!(LanguageKind::Ruby.is_complexity_node("unless"));
    assert!(LanguageKind::Php.is_complexity_node("foreach_statement"));
    assert!(LanguageKind::Kotlin.is_complexity_node("when_entry"));
    assert!(LanguageKind::CCpp.is_complexity_node("case_statement"));
}

#[test]
fn queries_per_language() {
    assert_eq!(LanguageKind::Rust.fn_query(), "(function_item name: (identifier) @fn_name)");
    assert_eq!(LanguageKind::Go.import_query(), "(import_declaration) @import");
    assert_eq!(
        LanguageKind::Python.security_query(),
        "(call function: (identifier) @name (#match? @name \"eval|exec|os\\\\.system|subprocess|pickle\")) @security"
    );
    assert_eq!(
        LanguageKind::JsTs.outbound_query(),
        "(call_expression function: (identifier) @name (#match? @name \"fetch|axios\")) @outbound"
    );
    assert_eq!(
        LanguageKind::Rust.error_query(),
        "(call_expression function: (field_expression field: (field_identifier) @name (#match? @name \"unwrap|expect\"))) @error"
    );
}

#[test]
fn every_grammar_finds_its_function_definitions() {
    let cases = [
        (LanguageKind::Rust, "fn alpha() {}\n"),
        (LanguageKind::Python, "def alpha():\n    pass\n"),
        (LanguageKind::JsTs, "function alpha() {}\n"),
        (LanguageKind::Go, "package p\nfunc alpha() {}\n"),
        (LanguageKind::CCpp, "void alpha() {}\n"),
        (LanguageKind::Java, "class C { void alpha() {} }\n"),
        (LanguageKind::Ruby, "def alpha\nend\n"),
        (LanguageKind::Php, "<?php\nfunction alpha() {}\n"),
    ];
    for (kind, source) in cases {
        let defs = SymbolAnalyzer.index_definitions("f", source, &kind);
        let names: Vec<&str> = defs.iter().map(|(n, _)| n.as_str()).collect();
        assert_eq!(names, vec!["alpha"], "{:?}", kind);
    }
}

#[test]
fn kotlin_definition_query_is_refused_by_its_grammar() {
    // The Kotlin grammar gives `function_declaration` no `name` field, so the
    // definition query does not compile and nothing is indexed.
    let defs = SymbolAnalyzer.index_definitions("f", "fun alpha() {}\n", &LanguageKind::Kotlin);
    assert!(defs.is_empty());
}
