use architect::index::DefinitionIndex;
use architect::state::SharedState;
use architect::types::{CallInfo, FnDefinition};

fn call(caller: Option<&str>, callee: &str) -> CallInfo {
    CallInfo {
        caller_file: "src/lib.rs".to_string(),
        caller_line: 1,
        caller_name: caller.map(|c| c.to_string()),
        callee_name: callee.to_string(),
        callee_defined_at: format!("src/lib.rs:{}", callee.len()),
    }
}

fn state_with(calls: Vec<CallInfo>) -> SharedState {
    let mut state = SharedState::new();
    state.cached_calls = calls;
    state
}

fn names(calls: &[CallInfo]) -> Vec<(Option<String>, String)> {
    calls.iter().map(|c| (c.caller_name.clone(), c.callee_name.clone())).collect()
}

#[test]
fn new_state_is_empty() {
    let state = SharedState::new();
    assert!(state.last_root.is_none());
    assert_eq!(state.cached_definitions.len(), 0);
    assert!(state.cached_calls.is_empty());
    assert_eq!(state.get_mermaid_diagram(), "graph TD;\n");
}

#[test]
fn mermaid_lists_each_edge_once() {
    let state = state_with(vec![
        call(Some("a"), "b"),
        call(None, "c"),
        call(Some("a"), "b"),
        call(Some("b"), "c"),
        call(None, "c"),
    ]);
    assert_eq!(
        state.get_mermaid_diagram(),
        "graph TD;\n    a --> b;\n    main --> c;\n    b --> c;\n"
    );
}

#[test]
fn impact_follows_callers_transitively() {
    let state = state_with(vec![
        call(Some("a"), "b"),
        call(Some("b"), "c"),
        call(Some("x"), "y"),
        call(None, "c"),
        call(Some("a"), "c"),
    ]);
    let impacted = state.get_impact_analysis("c");
    assert_eq!(
        names(&impacted),
        vec![
            (Some("b".to_string()), "c".to_string()),
            (None, "c".to_string()),
            (Some("a".to_string()), "c".to_string()),
            (Some("a".to_string()), "b".to_string()),
        ]
    );
}

#[test]
fn impact_terminates_on_cycles_and_counts_each_call_once() {
    let state = state_with(vec![call(Some("a"), "b"), call(Some("b"), "a"), call(Some("a"), "a")]);
    let impacted = state.get_impact_analysis("a");
    assert_eq!(impacted.len(), 3);
    let impacted = state.get_impact_analysis("b");
    assert_eq!(impacted.len(), 3);
}

#[test]
fn impact_of_unknown_function_is_empty() {
    let state = state_with(vec![call(Some("a"), "b")]);
    assert!(state.get_impact_analysis("zzz").is_empty());
}

#[test]
fn impact_keeps_call_fields() {
    let state = state_with(vec![call(Some("main"), "run")]);
    let impacted = state.get_impact_analysis("run");
    assert_eq!(impacted.len(), 1);
    assert_eq!(impacted[0].caller_file, "src/lib.rs");
    assert_eq!(impacted[0].callee_defined_at, "src/lib.rs:3");
}

#[test]
fn index_groups_definitions_by_name() {
    let mut index = DefinitionIndex::new();
    index.insert("f".to_string(), FnDefinition { file: "a.rs".to_string(), line: 3 });
    index.insert("g".to_string(), FnDefinition { file: "a.rs".to_string(), line: 9 });
    index.insert("f".to_string(), FnDefinition { file: "b.rs".to_string(), line: 1 });
    assert_eq!(index.len(), 2);
    assert_eq!(index.keys(), vec!["f".to_string(), "g".to_string()]);
    let f = index.get("f").unwrap();
    assert_eq!(f.len(), 2);
    assert_eq!((f[0].file.as_str(), f[0].line), ("a.rs", 3));
    assert_eq!((f[1].file.as_str(), f[1].line), ("b.rs", 1));
    assert!(index.get("h").is_none());
}

#[test]
fn index_from_pairs_matches_insertion() {
    let pairs = vec![
        ("x".to_string(), FnDefinition { file: "m.rs".to_string(), line: 1 }),
        ("y".to_string(), FnDefinition { file: "m.rs".to_string(), line: 2 }),
        ("x".to_string(), FnDefinition { file: "n.rs".to_string(), line: 5 }),
    ];
    let index = DefinitionIndex::from_pairs(pairs);
    assert_eq!(index.keys(), vec!["x".to_string(), "y".to_string()]);
    assert_eq!(index.get("x").unwrap().len(), 2);
    assert_eq!(index.get("y").unwrap()[0].line, 2);
    let empty = DefinitionIndex::from_pairs(Vec::new());
    assert_eq!(empty.len(), 0);
}

#[test]
fn impact_walk_takes_the_latest_found_caller_first() {
    let state = state_with(vec![
        call(Some("p"), "c"),
        call(Some("q"), "c"),
        call(Some("r"), "p"),
        call(Some("s"), "q"),
    ]);
    let impacted = state.get_impact_analysis("c");
    assert_eq!(
        names(&impacted),
        vec![
            (Some("p".to_string()), "c".to_string()),
            (Some("q".to_string()), "c".to_string()),
            (Some("s".to_string()), "q".to_string()),
            (Some("r".to_string()), "p".to_string()),
        ]
    );
}

#[test]
fn more_cached_calls_never_remove_an_impacted_call() {
    let fewer = vec![call(Some("a"), "b"), call(Some("b"), "c")];
    let more = vec![call(Some("a"), "b"), call(Some("b"), "c"), call(Some("z"), "a"), call(Some("b"), "c")];
    let small = names(&state_with(fewer).get_impact_analysis("c"));
    let large = names(&state_with(more).get_impact_analysis("c"));
    for c in &small {
        let count = |v: &Vec<(Option<String>, String)>| v.iter().filter(|d| *d == c).count();
        assert!(count(&small) <= count(&large));
    }
    assert_eq!(small.len(), 2);
    assert_eq!(large.len(), 4);
}
