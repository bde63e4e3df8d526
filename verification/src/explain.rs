//! The borrow explainer's reference manual: the cause and the idiomatic
//! fixes of a Rust compiler error, looked up by its code regardless of case.
use vstd::prelude::*;

use crate::text::{owned, text_eq, to_uppercase, unicode_uppercase};

verus! {

/// The errors that the manual knows; every other code is `General`.
#[derive(Clone, Copy, Debug, PartialEq, Eq, Structural)]
pub enum ErrorTopic {
    /// E0382, use of a moved value.
    UseOfMovedValue,
    /// E0502, a mutable borrow while an immutable one is alive.
    BorrowConflict,
    /// Any other code.
    General,
}

/// One idiomatic fix: its approach, a description and an example.
pub struct Solution {
    pub approach: &'static str,
    pub description: &'static str,
    pub example: &'static str,
}

/// The manual's entry for an error code.
pub struct Explanation {
    pub topic: ErrorTopic,
    pub error_code: String,
    pub title: &'static str,
    pub explanation: &'static str,
    pub solutions: Vec<Solution>,
}

pub const MOVED_CODE: &'static str =
    "E0382";

pub const MOVED_TITLE: &'static str =
    "Use of moved value";

pub const MOVED_EXPLANATION: &'static str =
    "Occurs when a value is used after its ownership has been transferred (moved) to another variable or function parameter. By default, type assignment has move semantics unless the type implements the Copy trait.";

pub const MOVED_FIX1_APPROACH: &'static str =
    "Clone the value";

pub const MOVED_FIX1_DESCRIPTION: &'static str =
    "Call `.clone()` on the variable if the type implements Clone. This duplicates the data on the heap.";

pub const MOVED_FIX1_EXAMPLE: &'static str =
    "let y = x.clone(); // x remains valid";

pub const MOVED_FIX2_APPROACH: &'static str =
    "Pass by reference";

pub const MOVED_FIX2_DESCRIPTION: &'static str =
    "Borrow the value via `&x` or `&mut x` instead of passing ownership, allowing the original caller to retain ownership.";

pub const MOVED_FIX2_EXAMPLE: &'static str =
    "some_function(&x);";

pub const MOVED_FIX3_APPROACH: &'static str =
    "Scoped borrowing or static dispatch";

pub const MOVED_FIX3_DESCRIPTION: &'static str =
    "Reorganize code blocks or scopes using braces `{}` so borrows are resolved before ownership is moved, or use enum-based static dispatch instead of polymorphic ownership structures.";

pub const MOVED_FIX3_EXAMPLE: &'static str =
    "{\n    let ref_x = &x;\n    // use ref_x\n}\nlet y = x; // valid because borrow has ended";

pub const CONFLICT_CODE: &'static str =
    "E0502";

pub const CONFLICT_TITLE: &'static str =
    "Cannot borrow as mutable because it is also borrowed as immutable";

pub const CONFLICT_EXPLANATION: &'static str =
    "Rust's strict aliasing rules state that you can have either one mutable borrow OR multiple immutable borrows at any given time, but never both simultaneously. This prevents data races at compile time.";

pub const CONFLICT_FIX1_APPROACH: &'static str =
    "Restrict borrow lifetimes via explicit scopes";

pub const CONFLICT_FIX1_DESCRIPTION: &'static str =
    "Use block scopes to complete the immutable borrow before starting the mutable borrow.";

pub const CONFLICT_FIX1_EXAMPLE: &'static str =
    "{\n    let y = &x;\n    println!(\"{}\", y);\n} // y goes out of scope here\nlet z = &mut x; // valid";

pub const CONFLICT_FIX2_APPROACH: &'static str =
    "Refactor to work on owned copies or intermediate values";

pub const CONFLICT_FIX2_DESCRIPTION: &'static str =
    "Clone the read-only values or read them into intermediate Stack-allocated variables to avoid holding borrows.";

pub const CONFLICT_FIX2_EXAMPLE: &'static str =
    "let temp = x.value;\nlet z = &mut x;\n// use temp and z separately";

pub const CONFLICT_FIX3_APPROACH: &'static str =
    "Non-Lexical Lifetimes structure";

pub const CONFLICT_FIX3_DESCRIPTION: &'static str =
    "Ensure the immutable borrow is not used after the mutable borrow starts. The compiler will automatically shorten the lifetime.";

pub const CONFLICT_FIX3_EXAMPLE: &'static str =
    "let y = &x;\n// y used here\nlet z = &mut x; // valid if y is never used again";

pub const GENERAL_TITLE: &'static str =
    "General Compiler Diagnostic";

pub const GENERAL_EXPLANATION: &'static str =
    "General Rust diagnostic. Consult standard compiler explanation via `rustc --explain`.";

pub const GENERAL_FIX1_APPROACH: &'static str =
    "Read detailed span context";

pub const GENERAL_FIX1_DESCRIPTION: &'static str =
    "Analyze compiler message output spans for primary labels explaining ownership changes.";

pub const GENERAL_FIX1_EXAMPLE: &'static str =
    "N/A";

/// The topic of an upper-cased error code.
pub open spec fn topic_of(upper: Seq<char>) -> ErrorTopic {
    if upper == MOVED_CODE@ {
        ErrorTopic::UseOfMovedValue
    } else if upper == CONFLICT_CODE@ {
        ErrorTopic::BorrowConflict
    } else {
        ErrorTopic::General
    }
}

/// The code an entry reports: the canonical code of a known topic, else the
/// code as it was asked for.
pub open spec fn reported_code(topic: ErrorTopic, asked: Seq<char>) -> Seq<char> {
    match topic {
        ErrorTopic::UseOfMovedValue => MOVED_CODE@,
        ErrorTopic::BorrowConflict => CONFLICT_CODE@,
        ErrorTopic::General => asked,
    }
}

pub open spec fn topic_title(topic: ErrorTopic) -> Seq<char> {
    match topic {
        ErrorTopic::UseOfMovedValue => MOVED_TITLE@,
        ErrorTopic::BorrowConflict => CONFLICT_TITLE@,
        ErrorTopic::General => GENERAL_TITLE@,
    }
}

pub open spec fn topic_explanation(topic: ErrorTopic) -> Seq<char> {
    match topic {
        ErrorTopic::UseOfMovedValue => MOVED_EXPLANATION@,
        ErrorTopic::BorrowConflict => CONFLICT_EXPLANATION@,
        ErrorTopic::General => GENERAL_EXPLANATION@,
    }
}

/// A fix as its three texts.
pub open spec fn solution_texts(s: Solution) -> (Seq<char>, Seq<char>, Seq<char>) {
    (s.approach@, s.description@, s.example@)
}

/// The fixes of a topic, in the order the manual gives them.
pub open spec fn topic_solutions(topic: ErrorTopic) -> Seq<(Seq<char>, Seq<char>, Seq<char>)> {
    match topic {
        ErrorTopic::UseOfMovedValue => seq![
            (MOVED_FIX1_APPROACH@, MOVED_FIX1_DESCRIPTION@, MOVED_FIX1_EXAMPLE@),
            (MOVED_FIX2_APPROACH@, MOVED_FIX2_DESCRIPTION@, MOVED_FIX2_EXAMPLE@),
            (MOVED_FIX3_APPROACH@, MOVED_FIX3_DESCRIPTION@, MOVED_FIX3_EXAMPLE@),
        ],
        ErrorTopic::BorrowConflict => seq![
            (CONFLICT_FIX1_APPROACH@, CONFLICT_FIX1_DESCRIPTION@, CONFLICT_FIX1_EXAMPLE@),
            (CONFLICT_FIX2_APPROACH@, CONFLICT_FIX2_DESCRIPTION@, CONFLICT_FIX2_EXAMPLE@),
            (CONFLICT_FIX3_APPROACH@, CONFLICT_FIX3_DESCRIPTION@, CONFLICT_FIX3_EXAMPLE@),
        ],
        ErrorTopic::General => seq![
            (GENERAL_FIX1_APPROACH@, GENERAL_FIX1_DESCRIPTION@, GENERAL_FIX1_EXAMPLE@),
        ],
    }
}

/// `e` is the manual's entry for the upper-cased code `upper`, asked for as `asked`.
pub open spec fn is_entry_for(e: Explanation, upper: Seq<char>, asked: Seq<char>) -> bool {
    let topic = topic_of(upper);
    &&& e.topic == topic
    &&& e.error_code@ == reported_code(topic, asked)
    &&& e.title@ == topic_title(topic)
    &&& e.explanation@ == topic_explanation(topic)
    &&& e.solutions@.len() == topic_solutions(topic).len()
    &&& forall|i: int|
        0 <= i < e.solutions@.len() ==> solution_texts(#[trigger] e.solutions@[i])
            == topic_solutions(topic)[i]
}

fn solution(approach: &'static str, description: &'static str, example: &'static str) -> (s: Solution)
    ensures
        solution_texts(s) == (approach@, description@, example@),
{
    Solution { approach, description, example }
}

/// The entry for an error code that is already upper-cased (`upper`); `asked`
/// is the code as the caller wrote it, reported back for an unknown code.
pub fn explanation_for(upper: &str, asked: &str) -> (e: Explanation)
    ensures
        is_entry_for(e, upper@, asked@),
{
    if text_eq(upper, MOVED_CODE) {
        Explanation {
            topic: ErrorTopic::UseOfMovedValue,
            error_code: owned(MOVED_CODE),
            title: MOVED_TITLE,
            explanation: MOVED_EXPLANATION,
            solutions: vec![
                solution(MOVED_FIX1_APPROACH, MOVED_FIX1_DESCRIPTION, MOVED_FIX1_EXAMPLE),
                solution(MOVED_FIX2_APPROACH, MOVED_FIX2_DESCRIPTION, MOVED_FIX2_EXAMPLE),
                solution(MOVED_FIX3_APPROACH, MOVED_FIX3_DESCRIPTION, MOVED_FIX3_EXAMPLE),
            ],
        }
    } else if text_eq(upper, CONFLICT_CODE) {
        Explanation {
            topic: ErrorTopic::BorrowConflict,
            error_code: owned(CONFLICT_CODE),
            title: CONFLICT_TITLE,
            explanation: CONFLICT_EXPLANATION,
            solutions: vec![
                solution(CONFLICT_FIX1_APPROACH, CONFLICT_FIX1_DESCRIPTION, CONFLICT_FIX1_EXAMPLE),
                solution(CONFLICT_FIX2_APPROACH, CONFLICT_FIX2_DESCRIPTION, CONFLICT_FIX2_EXAMPLE),
                solution(CONFLICT_FIX3_APPROACH, CONFLICT_FIX3_DESCRIPTION, CONFLICT_FIX3_EXAMPLE),
            ],
        }
    } else {
        Explanation {
            topic: ErrorTopic::General,
            error_code: owned(asked),
            title: GENERAL_TITLE,
            explanation: GENERAL_EXPLANATION,
            solutions: vec![
                solution(GENERAL_FIX1_APPROACH, GENERAL_FIX1_DESCRIPTION, GENERAL_FIX1_EXAMPLE),
            ],
        }
    }
}

/// The manual's entry for an error code, matched after upper-casing it, so
/// `e0382` finds the entry of `E0382`.
pub fn explain_compiler_error(error_code: &str) -> (e: Explanation)
    ensures
        is_entry_for(e, unicode_uppercase(error_code@), error_code@),
{
    let upper = to_uppercase(error_code);
    explanation_for(upper.as_str(), error_code)
}

/// A known error code is answered with three idiomatic solutions; any
/// other code with one general hint.
pub proof fn lemma_known_codes_have_three_solutions(upper: Seq<char>)
    ensures
        topic_of(upper) != ErrorTopic::General ==> topic_solutions(topic_of(upper)).len() == 3,
        topic_of(upper) == ErrorTopic::General ==> topic_solutions(topic_of(upper)).len() == 1,
{
}

/// The manual answers with the E0382 entry exactly for the code `E0382`,
/// with the E0502 entry exactly for `E0502`, and for every other code with
/// the general entry, which reports the code as it was asked and gives one
/// hint. A known entry reports its own code and three solutions.
pub proof fn lemma_entry_chosen_by_code(e: Explanation, upper: Seq<char>, asked: Seq<char>)
    requires
        is_entry_for(e, upper, asked),
    ensures
        e.topic == ErrorTopic::UseOfMovedValue <==> upper == "E0382"@,
        e.topic == ErrorTopic::BorrowConflict <==> upper == "E0502"@,
        e.topic == ErrorTopic::General <==> (upper != "E0382"@ && upper != "E0502"@),
        e.topic != ErrorTopic::General ==> e.error_code@ == upper && e.solutions@.len() == 3,
        e.topic == ErrorTopic::General ==> e.error_code@ == asked && e.title@
            == "General Compiler Diagnostic"@ && e.solutions@.len() == 1,
{
    reveal_strlit("E0382");
    reveal_strlit("E0502");
    assert("E0382"@[3] != "E0502"@[3]);
}

} // verus!
