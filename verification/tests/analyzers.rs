use architect::analyzer::external_coupling::ExternalCouplingAnalyzer;
use architect::analyzer::{
    ApiAnalyzer, DependencyAnalyzer, MetricsAnalyzer, SecurityAnalyzer, SymbolAnalyzer,
};
use architect::index::DefinitionIndex;
use architect::languages::LanguageKind;
use architect::state::SharedState;
use architect::types::{FnDefinition, SourceFile};

const RUST_SOURCE: &str = "use std::io;\nuse crate::model::Item;\n\nfn helper(x: i32) -> i32 {\n    x + 1\n}\n\nfn main() {\n    if true && false {\n        helper(1);\n    }\n    let y = helper(2);\n    system(y);\n}\n";

fn rust_file(path: &str, content: &str) -> SourceFile {
    SourceFile { path: path.to_string(), extension: Some("rs".to_string()), content: content.to_string() }
}

#[test]
fn symbol_analyzer_indexes_rust_functions() {
    let defs = SymbolAnalyzer.index_definitions("src/main.rs", RUST_SOURCE, &LanguageKind::Rust);
    let found: Vec<(String, String, usize)> =
        defs.into_iter().map(|(n, d)| (n, d.file, d.line)).collect();
    assert_eq!(
        found,
        vec![
            ("helper".to_string(), "src/main.rs".to_string(), 4),
            ("main".to_string(), "src/main.rs".to_string(), 8),
        ]
    );
}

#[test]
fn symbol_analyzer_finds_calls_with_callers() {
    let pairs = SymbolAnalyzer.index_definitions("src/main.rs", RUST_SOURCE, &LanguageKind::Rust);
    let index = DefinitionIndex::from_pairs(pairs);
    let calls = SymbolAnalyzer.find_calls("src/main.rs", RUST_SOURCE, &LanguageKind::Rust, &index);
    assert!(!calls.is_empty());
    for c in &calls {
        assert_eq!(c.callee_name, "helper");
        assert_eq!(c.caller_name.as_deref(), Some("main"));
        assert_eq!(c.callee_defined_at, "src/main.rs:4");
        assert_eq!(c.caller_file, "src/main.rs");
    }
    let lines: Vec<usize> = calls.iter().map(|c| c.caller_line).collect();
    assert!(lines.contains(&10));
    assert!(lines.contains(&12));
}

#[test]
fn find_calls_ignores_unknown_functions() {
    let index = DefinitionIndex::new();
    let calls = SymbolAnalyzer.find_calls("a.rs", RUST_SOURCE, &LanguageKind::Rust, &index);
    assert!(calls.is_empty());
}

#[test]
fn dependency_analyzer_lists_trimmed_imports() {
    let imports = DependencyAnalyzer.analyze("src/main.rs", RUST_SOURCE, &LanguageKind::Rust);
    assert_eq!(imports, vec!["use std::io;".to_string(), "use crate::model::Item;".to_string()]);
}

#[test]
fn coupling_splits_internal_and_external() {
    let report = ExternalCouplingAnalyzer.analyze("src/main.rs", RUST_SOURCE, &LanguageKind::Rust);
    assert_eq!(report.file, "src/main.rs");
    assert_eq!(report.internal_imports, 1);
    assert_eq!(report.external_imports, 1);
    assert_eq!(report.external_libraries, vec!["use std::io;".to_string()]);
}

#[test]
fn coupling_from_imports_counts_each_once() {
    let imports = vec![
        "import x from './x'".to_string(),
        "import y from '../y'".to_string(),
        "import React from 'react'".to_string(),
        "use crate::a;".to_string(),
    ];
    let report = ExternalCouplingAnalyzer.report_from_imports("app.ts", &imports);
    assert_eq!(report.internal_imports, 3);
    assert_eq!(report.external_imports, 1);
    assert_eq!(report.external_libraries, vec!["import React from 'react'".to_string()]);
    let empty = ExternalCouplingAnalyzer.report_from_imports("e.ts", &Vec::new());
    assert_eq!((empty.internal_imports, empty.external_imports), (0, 0));
}

#[test]
fn metrics_measure_functions() {
    let metrics = MetricsAnalyzer.analyze("src/main.rs", RUST_SOURCE, &LanguageKind::Rust);
    let summary: Vec<(String, usize, usize, usize, bool)> = metrics
        .iter()
        .map(|m| (m.function.clone(), m.line, m.cyclomatic_complexity, m.length, m.is_hell_function))
        .collect();
    assert_eq!(
        summary,
        vec![
            ("helper".to_string(), 4, 1, 3, false),
            ("main".to_string(), 8, 3, 7, false),
        ]
    );
    assert!(metrics.iter().all(|m| m.file == "src/main.rs"));
}

#[test]
fn metrics_flag_complex_functions() {
    let mut body = String::from("fn busy(x: i32) {\n");
    for i in 0..11 {
        body.push_str(&format!("    if x == {} {{ }}\n", i));
    }
    body.push_str("}\n");
    let metrics = MetricsAnalyzer.analyze("b.rs", &body, &LanguageKind::Rust);
    assert_eq!(metrics.len(), 1);
    assert_eq!(metrics[0].cyclomatic_complexity, 12);
    assert!(metrics[0].is_hell_function);
}

#[test]
fn security_analyzer_reports_dangerous_calls() {
    let hotspots = SecurityAnalyzer.analyze("src/main.rs", RUST_SOURCE, &LanguageKind::Rust);
    assert!(!hotspots.is_empty());
    assert!(hotspots.iter().any(|h| h.symbol == "system"));
    for h in &hotspots {
        assert_eq!(h.issue, "Security Hotspot");
        assert_eq!(h.line, 13);
        assert_eq!(h.description, format!("Potentially dangerous symbol/pattern found: {}", h.symbol));
    }
}

#[test]
fn api_analyzer_reports_routes() {
    let source = "@app.get(\"/items\")\ndef items():\n    return []\n";
    let endpoints = ApiAnalyzer.analyze("app.py", source, &LanguageKind::Python);
    assert!(!endpoints.is_empty());
    for e in &endpoints {
        assert_eq!(e.endpoint_type, "API Endpoint");
        assert_eq!(e.file, "app.py");
        assert_eq!(e.line, 1);
    }
    assert!(endpoints.iter().any(|e| e.route_info == "get"));
}

#[test]
fn python_definitions_and_complexity() {
    let source = "def f(a):\n    if a and a:\n        return 1\n    return 2\n";
    let defs = SymbolAnalyzer.index_definitions("m.py", source, &LanguageKind::Python);
    assert_eq!(defs.len(), 1);
    assert_eq!(defs[0].0, "f");
    let metrics = MetricsAnalyzer.analyze("m.py", source, &LanguageKind::Python);
    assert_eq!(metrics.len(), 1);
    assert_eq!(metrics[0].function, "f");
    assert_eq!(metrics[0].cyclomatic_complexity, 3);
}

#[test]
fn workspace_index_skips_non_rust_and_target() {
    let state = SharedState::new();
    let files = vec![
        rust_file("p/src/main.rs", RUST_SOURCE),
        rust_file("p/target/debug/build.rs", "fn generated() {}\n"),
        SourceFile { path: "p/app.py".to_string(), extension: Some("py".to_string()), content: "def f():\n  pass\n".to_string() },
        SourceFile { path: "p/README".to_string(), extension: None, content: String::new() },
    ];
    let index = state.index_definitions(&files);
    assert_eq!(index.keys(), vec!["helper".to_string(), "main".to_string()]);
    let calls = state.find_calls(&files, &index);
    assert!(!calls.is_empty());
    assert!(calls.iter().all(|c| c.caller_name.as_deref() == Some("main") && c.callee_name == "helper"));
    let metrics = state.get_metrics(&files);
    let names: Vec<&str> = metrics.iter().map(|m| m.function.as_str()).collect();
    assert_eq!(names, vec!["helper", "main"]);
}

#[test]
fn workspace_metrics_use_fifty_line_limit() {
    let mut body = String::from("fn long() {\n");
    for _ in 0..55 {
        body.push_str("    let _a = 1;\n");
    }
    body.push_str("}\n");
    let state = SharedState::new();
    let metrics = state.get_metrics(&vec![rust_file("l.rs", &body)]);
    assert_eq!(metrics.len(), 1);
    assert_eq!(metrics[0].length, 57);
    assert!(metrics[0].is_hell_function);
    let analyzed = MetricsAnalyzer.analyze("l.rs", &body, &LanguageKind::Rust);
    assert!(!analyzed[0].is_hell_function);
}

#[test]
fn definition_records_are_plain() {
    let d = FnDefinition { file: "a".to_string(), line: 1 };
    assert_eq!(d.duplicate().line, 1);
}

#[test]
fn hell_function_flag_starts_above_ten() {
    for (branches, flagged) in [(9, false), (10, true)] {
        let mut body = String::from("fn edge(x: i32) {\n");
        for i in 0..branches {
            body.push_str(&format!("    if x == {} {{ }}\n", i));
        }
        body.push_str("}\n");
        let metrics = MetricsAnalyzer.analyze("e.rs", &body, &LanguageKind::Rust);
        assert_eq!(metrics.len(), 1);
        assert_eq!(metrics[0].cyclomatic_complexity, branches + 1);
        assert_eq!(metrics[0].is_hell_function, flagged);
        assert!(metrics[0].length >= 1 && metrics[0].line >= 1);
    }
}

#[test]
fn calls_are_found_in_every_grammar() {
    let cases = [
        (LanguageKind::Rust, "a.rs", "fn foo() {\n    bar();\n}\n"),
        (LanguageKind::Python, "a.py", "def foo():\n    bar()\n"),
        (LanguageKind::JsTs, "a.ts", "function foo() {\n  bar();\n}\n"),
        (LanguageKind::Go, "a.go", "package p\nfunc foo() {\n\tbar()\n}\n"),
        (LanguageKind::CCpp, "a.c", "void foo() {\n  bar();\n}\n"),
        (LanguageKind::Ruby, "a.rb", "def foo\n  bar()\nend\n"),
        (LanguageKind::Php, "a.php", "<?php\nfunction foo() {\n  bar();\n}\n"),
    ];
    for (kind, path, source) in cases {
        let index = DefinitionIndex::from_pairs(vec![(
            "bar".to_string(),
            FnDefinition { file: "b".to_string(), line: 1 },
        )]);
        let calls = SymbolAnalyzer.find_calls(path, source, &kind, &index);
        assert!(!calls.is_empty(), "{:?}", kind);
        for c in &calls {
            assert_eq!(c.callee_name, "bar", "{:?}", kind);
            assert_eq!(c.caller_line, if kind == LanguageKind::Go || kind == LanguageKind::Php { 3 } else { 2 }, "{:?}", kind);
            // A C function definition names its function through a declarator, not a
            // `name` field, so its calls have no caller name.
            let caller = if kind == LanguageKind::CCpp { None } else { Some("foo") };
            assert_eq!(c.caller_name.as_deref(), caller, "{:?}", kind);
            assert_eq!(c.callee_defined_at, "b:1");
        }
    }
}

#[test]
fn kotlin_calls_are_found_without_a_caller_name() {
    let index = DefinitionIndex::from_pairs(vec![(
        "bar".to_string(),
        FnDefinition { file: "b".to_string(), line: 1 },
    )]);
    let calls = SymbolAnalyzer.find_calls("a.kt", "fun foo() {\n    bar()\n}\n", &LanguageKind::Kotlin, &index);
    assert!(!calls.is_empty());
    assert!(calls.iter().all(|c| c.callee_name == "bar" && c.caller_line == 2));
}

#[test]
fn security_analyzer_reports_unsafe_blocks() {
    let hotspots = SecurityAnalyzer.analyze("a.rs", "fn f() {\n    unsafe { g(); }\n}\n", &LanguageKind::Rust);
    assert!(hotspots.iter().any(|h| h.line == 2 && h.symbol == "unsafe { g(); }"));
}
