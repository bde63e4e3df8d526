use antigravity_core_mcp::timeline::{
    lifetime_map, ownership_timeline_text, span_order, DiagnosticRecord, SpanRecord, ALL_CLEAR,
    NO_SPANS_NOTE, TIMELINE_HEADER,
};

fn span(line: Option<u64>, primary: Option<bool>, label: Option<&str>, text: Option<&str>) -> SpanRecord {
    SpanRecord {
        line_start: line,
        file_name: Some("src/lib.rs".to_string()),
        is_primary: primary,
        label: label.map(|s| s.to_string()),
        text: text.map(|s| s.to_string()),
    }
}

#[test]
fn timeline_without_diagnostics_is_all_clear() {
    let t = ownership_timeline_text(&vec![]);
    assert_eq!(t, ALL_CLEAR);
    assert_eq!(t, "No compilation borrow/lifetime errors detected! Everything is green. ✨\n");
}

#[test]
fn timeline_sorts_spans_and_skips_unplaced_ones() {
    let d = DiagnosticRecord {
        code: Some("E0382".to_string()),
        message: Some("borrow of moved value: `x`".to_string()),
        spans: vec![
            span(Some(12), Some(true), Some("value borrowed here after move"), Some("    println!(\"{}\", x);  ")),
            span(None, Some(false), None, None),
            span(Some(7), None, Some(""), Some("let y = x;")),
        ],
    };
    let t = ownership_timeline_text(&vec![d]);
    let expected = String::new()
        + TIMELINE_HEADER
        + "\nDiagnostic: [E0382] borrow of moved value: `x`\n"
        + "  File: src/lib.rs (Line 7)\n  Code: let y = x;\n  Map:  [Secondary]      *=========X    (Active Borrow Reference)\n\n"
        + "  File: src/lib.rs (Line 12)\n  Code: println!(\"{}\", x);\n  Map:  [Primary]   *==================X (Borrow/Lifetime Error)\n  Note: ^-- value borrowed here after move\n\n";
    assert_eq!(t, expected);
}

#[test]
fn timeline_notes_when_no_span_has_a_line() {
    let d = DiagnosticRecord { code: None, message: None, spans: vec![span(Some(0), None, None, None)] };
    let t = ownership_timeline_text(&vec![d]);
    let expected = String::new()
        + TIMELINE_HEADER
        + "\nDiagnostic: [unknown] Diagnostic message\n"
        + NO_SPANS_NOTE;
    assert_eq!(t, expected);
}

#[test]
fn timeline_uses_default_file_name() {
    let s = SpanRecord { line_start: Some(100), file_name: None, is_primary: Some(false), label: None, text: None };
    let d = DiagnosticRecord { code: Some("E0502".to_string()), message: Some("m".to_string()), spans: vec![s] };
    let t = ownership_timeline_text(&vec![d]);
    assert!(t.contains("  File: src/main.rs (Line 100)\n  Code: \n"));
    assert!(!t.contains("No detailed source spans"));
}

#[test]
fn span_order_is_stable_by_line() {
    let spans = vec![
        span(Some(5), None, Some("a"), None),
        span(Some(2), None, Some("b"), None),
        span(Some(5), None, Some("c"), None),
        span(None, None, Some("d"), None),
        span(Some(2), None, Some("e"), None),
    ];
    assert_eq!(span_order(&spans), vec![3, 1, 4, 0, 2]);
}

#[test]
fn only_compiler_messages_are_selected() {
    let lines: Vec<String> = vec![
        r#"{"reason":"compiler-artifact","target":{"name":"x"}}"#,
        r#"{"reason":"compiler-message","message":{"code":{"code":"E0382","explanation":null},"message":"borrow of moved value: `x`","spans":[{"line_start":9,"file_name":"src/main.rs","is_primary":true,"label":"value borrowed here after move","text":[{"text":"    println!(\"{}\", x);","highlight_start":5}]},{"line_start":4,"file_name":"src/main.rs","is_primary":false,"label":"value moved here","text":[{"text":"    let y = x;"}]}]}}"#,
        "not json at all",
        r#"{"reason":"compiler-message"}"#,
        r#"{"message":{"message":"orphan"}}"#,
        r#"{"reason":"compiler-message","message":{"code":null,"message":"unused variable","spans":"none"}}"#,
        r#"{"reason":"build-finished","success":false}"#,
    ]
    .into_iter()
    .map(String::from)
    .collect();
    let map = lifetime_map(&lines);
    assert_eq!(map.positions, vec![1, 5]);
    assert_eq!(map.diagnostics.len(), 2);
    assert_eq!(map.raw_messages.len(), 2);
    let first: serde_json::Value = serde_json::from_str(&map.raw_messages[0]).unwrap();
    assert_eq!(first["code"]["code"], "E0382");
    assert_eq!(map.raw_messages[1], r#"{"code":null,"message":"unused variable","spans":"none"}"#);
    assert_eq!(map.diagnostics[0].code.as_deref(), Some("E0382"));
    assert_eq!(map.diagnostics[0].spans.len(), 2);
    assert_eq!(map.diagnostics[0].spans[1].text.as_deref(), Some("    let y = x;"));
    assert_eq!(map.diagnostics[1].code, None);
    assert!(map.diagnostics[1].spans.is_empty());
    let expected = String::new()
        + TIMELINE_HEADER
        + "\nDiagnostic: [E0382] borrow of moved value: `x`\n"
        + "  File: src/main.rs (Line 4)\n  Code: let y = x;\n  Map:  [Secondary]      *=========X    (Active Borrow Reference)\n  Note: ^-- value moved here\n\n"
        + "  File: src/main.rs (Line 9)\n  Code: println!(\"{}\", x);\n  Map:  [Primary]   *==================X (Borrow/Lifetime Error)\n  Note: ^-- value borrowed here after move\n\n"
        + "\nDiagnostic: [unknown] unused variable\n";
    assert_eq!(map.timeline, expected);
}

#[test]
fn no_compiler_messages_gives_all_clear() {
    let lines = vec![r#"{"reason":"build-finished","success":true}"#.to_string()];
    let map = lifetime_map(&lines);
    assert!(map.positions.is_empty());
    assert_eq!(map.timeline, ALL_CLEAR);
}
