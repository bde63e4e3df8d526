use antigravity_core_mcp::explain::{explain_compiler_error, explanation_for, ErrorTopic};

#[test]
fn explains_use_of_moved_value() {
    let e = explain_compiler_error("E0382");
    assert_eq!(e.topic, ErrorTopic::UseOfMovedValue);
    assert_eq!(e.error_code, "E0382");
    assert_eq!(e.title, "Use of moved value");
    assert_eq!(e.solutions.len(), 3);
    assert_eq!(e.solutions[0].approach, "Clone the value");
    assert_eq!(e.solutions[2].example, "{\n    let ref_x = &x;\n    // use ref_x\n}\nlet y = x; // valid because borrow has ended");
}

#[test]
fn lower_case_codes_are_recognised() {
    let e = explain_compiler_error("e0502");
    assert_eq!(e.topic, ErrorTopic::BorrowConflict);
    assert_eq!(e.error_code, "E0502");
    assert_eq!(e.title, "Cannot borrow as mutable because it is also borrowed as immutable");
    assert_eq!(e.solutions.len(), 3);
    assert_eq!(e.solutions[1].approach, "Refactor to work on owned copies or intermediate values");
}

#[test]
fn unknown_codes_get_the_general_entry() {
    let e = explain_compiler_error("e0499");
    assert_eq!(e.topic, ErrorTopic::General);
    assert_eq!(e.error_code, "e0499");
    assert_eq!(e.title, "General Compiler Diagnostic");
    assert_eq!(e.solutions.len(), 1);
    assert_eq!(e.solutions[0].example, "N/A");
}

#[test]
fn entry_lookup_takes_the_upper_cased_code() {
    assert_eq!(explanation_for("E0382", "e0382").error_code, "E0382");
    assert_eq!(explanation_for("e0382", "e0382").topic, ErrorTopic::General);
}
