use architect::prompts::{architect_review_text, refactor_suggestion_text, security_audit_text};
use architect::resources::{ArchitectResources, ResourceBody, ResourceError, ResourceKind};
use architect::server::complete_function_names;
use architect::state::SharedState;
use architect::tools::{
    analyze_call_graph, context_symbols, refactor_request_text, refactor_summary, take_names,
    workspace_summary_text,
};
use architect::types::{CallInfo, SourceFile};

fn strings(v: &[&str]) -> Vec<String> {
    v.iter().map(|s| s.to_string()).collect()
}

#[test]
fn resources_are_listed_in_order() {
    let resources = ArchitectResources::new(SharedState::new());
    let list = resources.list_resources();
    let uris: Vec<&str> = list.iter().map(|r| r.uri.as_str()).collect();
    assert_eq!(uris, vec!["architect://call-graph/summary", "architect://visual/mermaid", "architect://metrics/debt"]);
    assert_eq!(list[1].mime_type, "text/plain");
    assert_eq!(list[2].name, "Technical Debt & Metrics");
}

#[test]
fn unknown_resource_is_refused() {
    let resources = ArchitectResources::new(SharedState::new());
    match resources.read_resource("architect://nothing", &Vec::new()) {
        Err(e) => assert_eq!(e, ResourceError::UnknownUri),
        Ok(_) => panic!("unknown resource was served"),
    }
    assert_eq!(ArchitectResources::resource_kind("architect://visual/mermaid").ok(), Some(ResourceKind::MermaidMap));
}

#[test]
fn resources_before_analysis() {
    let resources = ArchitectResources::new(SharedState::new());
    let summary = resources.read_resource("architect://call-graph/summary", &Vec::new()).ok().unwrap();
    assert_eq!(summary.mime_type, "application/json");
    assert!(matches!(summary.body, ResourceBody::NotAnalyzed));
    let debt = resources.read_resource("architect://metrics/debt", &Vec::new()).ok().unwrap();
    assert!(matches!(debt.body, ResourceBody::NotAnalyzed));
}

#[test]
fn resources_after_analysis() {
    let mut state = SharedState::new();
    state.last_root = Some("/w".to_string());
    state.cached_calls = vec![CallInfo {
        caller_file: "/w/a.rs".to_string(),
        caller_line: 2,
        caller_name: None,
        callee_name: "run".to_string(),
        callee_defined_at: "/w/a.rs:1".to_string(),
    }];
    let resources = ArchitectResources::new(state);
    let files = vec![SourceFile {
        path: "/w/a.rs".to_string(),
        extension: Some("rs".to_string()),
        content: "fn run() {}\nfn go() { run(); }\n".to_string(),
    }];
    let summary = resources.read_resource("architect://call-graph/summary", &files).ok().unwrap();
    match summary.body {
        ResourceBody::CallGraphSummary { workspace, total_definitions, definitions } => {
            assert_eq!(workspace, "/w");
            assert_eq!(total_definitions, 2);
            assert_eq!(definitions, strings(&["run", "go"]));
        }
        _ => panic!("expected a summary"),
    }
    let map = resources.read_resource("architect://visual/mermaid", &files).ok().unwrap();
    match map.body {
        ResourceBody::MermaidDiagram(d) => assert_eq!(d, "graph TD;\n    main --> run;\n"),
        _ => panic!("expected a diagram"),
    }
    let debt = resources.read_resource("architect://metrics/debt", &files).ok().unwrap();
    match debt.body {
        ResourceBody::Metrics(m) => assert_eq!(m.len(), 2),
        _ => panic!("expected metrics"),
    }
}

#[test]
fn prompts_embed_the_function_name() {
    let text = architect_review_text("parse_config");
    assert!(text.starts_with("You are a Senior Software Architect. Review the implementation and dependencies of the function 'parse_config' to identify"));
    assert!(text.contains("\n\nPlease utilize the following tools for your analysis:\n1. `analyze_call_graph`"));
    assert!(text.ends_with("Based on this information, provide specific improvement suggestions."));
    assert!(refactor_suggestion_text().starts_with("You are an expert Refactoring Consultant."));
    assert!(security_audit_text().ends_with("provide remediation steps for each."));
}

#[test]
fn completion_is_case_insensitive() {
    let names = strings(&["ParseConfig", "render", "parse_args", "Ärger"]);
    assert_eq!(complete_function_names(&names, "function_name", "PARSE"), strings(&["ParseConfig", "parse_args"]));
    assert_eq!(complete_function_names(&names, "function_name", "är"), strings(&["Ärger"]));
    assert_eq!(complete_function_names(&names, "function_name", ""), names);
    assert!(complete_function_names(&names, "path", "parse").is_empty());
}

#[test]
fn refactor_context_selection() {
    let known: Vec<String> = (0..120).map(|i| format!("f{}", i)).collect();
    assert_eq!(context_symbols(&known, false, Vec::new()).len(), 100);
    assert_eq!(context_symbols(&known, true, Vec::new()).len(), 50);
    assert_eq!(context_symbols(&known, true, strings(&["g"])), strings(&["g"]));
    assert_eq!(take_names(&strings(&["a", "b"]), 50), strings(&["a", "b"]));
    let text = refactor_request_text("S", &None);
    assert_eq!(text, "The following is a code map summary based on the Call Graph of the current project:\nS\n\nPlease provide refactoring suggestions for 'the whole workspace' from an architectural perspective. Specifically, suggest ways to improve coupling and cohesion.");
    assert!(refactor_request_text("S", &Some("f".to_string())).contains("suggestions for 'f' from"));
}

#[test]
fn every_listed_resource_can_be_read() {
    let resources = ArchitectResources::new(SharedState::new());
    for descriptor in resources.list_resources() {
        let content = resources.read_resource(&descriptor.uri, &Vec::new()).ok().unwrap();
        assert_eq!(content.uri, descriptor.uri);
        assert_eq!(content.mime_type, descriptor.mime_type);
    }
}

#[test]
fn completions_are_known_names_containing_the_value() {
    let names = strings(&["load_file", "SaveFile", "close", "FILE"]);
    let found = complete_function_names(&names, "function_name", "File");
    assert_eq!(found, strings(&["load_file", "SaveFile", "FILE"]));
    for name in &found {
        assert!(names.contains(name));
        assert!(name.to_lowercase().contains("file"));
    }
    assert!(complete_function_names(&names, "target", "File").is_empty());
}

#[test]
fn call_graph_analysis_records_the_root() {
    let mut state = SharedState::new();
    let files = vec![
        SourceFile {
            path: "w/src/lib.rs".to_string(),
            extension: Some("rs".to_string()),
            content: "fn run() {}\nfn go() { run(); run(); }\n".to_string(),
        },
        SourceFile { path: "w/notes.md".to_string(), extension: Some("md".to_string()), content: "fn no() {}".to_string() },
    ];
    let report = analyze_call_graph(&mut state, "w".to_string(), &files);
    assert_eq!(state.last_root, Some("w".to_string()));
    assert_eq!(state.cached_calls.len(), 2);
    assert_eq!(state.cached_definitions.keys(), strings(&["run", "go"]));
    assert_eq!(report.definitions.keys(), strings(&["run", "go"]));
    assert_eq!(report.calls.len(), 2);
    assert!(report.calls.iter().all(|c| c.caller_name.as_deref() == Some("go") && c.callee_defined_at == "w/src/lib.rs:1"));
}

#[test]
fn refactor_summary_lists_the_context() {
    let names = strings(&["a\"b", "c"]);
    assert_eq!(
        workspace_summary_text("ws", 12, &names),
        format!("Workspace: ws\nTotal Definitions Found: 12\nRelevant/Related Functions: {:?}", names)
    );
    let mut state = SharedState::new();
    assert_eq!(refactor_summary(&state, &Vec::new(), &None, Vec::new()), "No workspace analyzed yet.");
    state.last_root = Some("ws".to_string());
    let files = vec![SourceFile {
        path: "ws/m.rs".to_string(),
        extension: Some("rs".to_string()),
        content: "fn one() {}\nfn two() {}\n".to_string(),
    }];
    assert_eq!(
        refactor_summary(&state, &files, &Some("one".to_string()), Vec::new()),
        "Workspace: ws\nTotal Definitions Found: 2\nRelevant/Related Functions: [\"one\", \"two\"]"
    );
    assert_eq!(
        refactor_summary(&state, &files, &Some("one".to_string()), strings(&["x"])),
        "Workspace: ws\nTotal Definitions Found: 2\nRelevant/Related Functions: [\"x\"]"
    );
}

#[test]
fn mermaid_resource_maps_the_analyzed_call_graph() {
    let mut state = SharedState::new();
    let files = vec![SourceFile {
        path: "w/src/main.rs".to_string(),
        extension: Some("rs".to_string()),
        content: "fn leaf() {}\nfn mid() { leaf(); }\nfn top() { mid(); leaf(); }\n".to_string(),
    }];
    analyze_call_graph(&mut state, "w".to_string(), &files);
    let resources = ArchitectResources::new(state);
    let map = resources.read_resource("architect://visual/mermaid", &files).ok().unwrap();
    match map.body {
        ResourceBody::MermaidDiagram(d) => {
            assert_eq!(d, "graph TD;\n    mid --> leaf;\n    top --> mid;\n    top --> leaf;\n")
        }
        _ => panic!("the map was not served"),
    }
    assert_eq!(
        complete_function_names(&resources.state.cached_definitions.keys(), "function_name", "L"),
        strings(&["leaf"])
    );
}
