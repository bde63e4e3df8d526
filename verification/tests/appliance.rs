use antigravity_core_mcp::appliance::{
    lint_idiomatic, lint_status, pattern_by_name, AntiPattern, PatternKind,
};

#[test]
fn clean_code_has_no_findings() {
    let f = lint_idiomatic("fn add(a: u32, b: u32) -> u32 { a + b }");
    assert!(f.is_empty());
    assert_eq!(lint_status(&f), "clean");
}

#[test]
fn manual_index_loop_is_reported() {
    let f = lint_idiomatic("for i in 0..v.len() { total += v[i]; }");
    assert_eq!(f, vec![AntiPattern::ManualIndexLoop]);
    assert_eq!(lint_status(&f), "findings");
    assert_eq!(f[0].title(), "Manual vector index looping");
    assert_eq!(f[0].severity(), "Warning");
}

#[test]
fn manual_loop_needs_brackets() {
    let f = lint_idiomatic("for i in 0..n { total += i; }");
    assert!(f.is_empty());
}

#[test]
fn all_findings_come_in_order() {
    let f = lint_idiomatic("let b = Box::new(1); let x = opt.unwrap(); for i in 0..3 { a[i] = 0; }");
    assert_eq!(f, vec![AntiPattern::ManualIndexLoop, AntiPattern::HeapAllocation, AntiPattern::HazardousUnwrap]);
    assert_eq!(f[1].severity(), "Performance Advisory");
    assert_eq!(f[2].title(), "Hazardous use of .unwrap()");
    assert_eq!(f[2].severity(), "Critical");
}

#[test]
fn vec_macro_is_a_heap_allocation() {
    assert_eq!(lint_idiomatic("let v = vec![1, 2];"), vec![AntiPattern::HeapAllocation]);
}

#[test]
fn patterns_are_found_by_name() {
    assert_eq!(pattern_by_name("type_state_builder").ok(), Some(PatternKind::TypeStateBuilder));
    assert_eq!(pattern_by_name("thiserror_mapping").ok(), Some(PatternKind::ThiserrorMapping));
    assert_eq!(pattern_by_name("parallel_rayon_loop").ok(), Some(PatternKind::ParallelRayonLoop));
    assert!(PatternKind::TypeStateBuilder.source().starts_with("// Elite Type-State Builder Pattern\n"));
    assert!(PatternKind::ParallelRayonLoop.source().contains("into_par_iter()"));
    assert_eq!(PatternKind::ThiserrorMapping.name(), "thiserror_mapping");
}

#[test]
fn unknown_pattern_is_refused() {
    let e = pattern_by_name("Type_State_Builder").err().unwrap();
    assert_eq!(e.code, 400);
    assert_eq!(
        e.message,
        "Unknown pattern: 'Type_State_Builder'. Supported patterns: 'type_state_builder', 'thiserror_mapping', 'parallel_rayon_loop'"
    );
}
