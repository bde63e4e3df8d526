//! The Rust appliance: the idiomatic-lint scan of a code block, and the
//! catalogue of structural templates that can be injected into a project.
use vstd::prelude::*;

use crate::error::{ToolError, BAD_REQUEST};
use crate::text::{contains_text, has_substring, owned, push_text, text_eq};

verus! {

// ---------------------------------------------------------------------------
// Lint
// ---------------------------------------------------------------------------

/// The anti-patterns that the lint reports, in the order it checks them.
#[derive(Clone, Copy, Debug, PartialEq, Eq, Structural)]
pub enum AntiPattern {
    ManualIndexLoop,
    HeapAllocation,
    HazardousUnwrap,
}

pub const MANUAL_LOOP_NAME: &'static str = "Manual vector index looping";

pub const MANUAL_LOOP_SEVERITY: &'static str = "Warning";

pub const MANUAL_LOOP_WHY: &'static str =
    "Direct indexing has bounds checking overhead and lacks Rust's standard safety/expressiveness. Manual loops bypass Iterator optimizations.";

pub const MANUAL_LOOP_ALTERNATIVE: &'static str =
    "for (idx, item) in vec.iter().enumerate() {\n    // Use item and idx safely here without bounds-check overhead\n}";

pub const HEAP_NAME: &'static str = "Unnecessary heap allocation (Box or Vec)";

pub const HEAP_SEVERITY: &'static str = "Performance Advisory";

pub const HEAP_WHY: &'static str =
    "Allocating dynamic heap memory introduces thread synchronization and pointer chasing overhead when stack-allocated arrays `[T; N]` can be statically sized.";

pub const HEAP_ALTERNATIVE: &'static str =
    "let stack_array: [i32; 3] = [1, 2, 3]; // Microsecond-fast allocation on stack";

pub const UNWRAP_NAME: &'static str = "Hazardous use of .unwrap()";

pub const UNWRAP_SEVERITY: &'static str = "Critical";

pub const UNWRAP_WHY: &'static str =
    "Direct panic on None or Err values violates production fault-tolerance rules. Production code must handle failures gracefully using pattern matching or bubbling via the `?` operator.";

pub const UNWRAP_ALTERNATIVE: &'static str =
    "if let Some(value) = option {\n    // handle\n} else {\n    // fallback / recover\n}\n\n// Or bubble using Option/Result matching:\nlet value = option.ok_or(ApplianceError::InvalidPattern(\"Missing value\".into()))?;";

/// The status reported when the lint finds nothing.
pub const CLEAN_STATUS: &'static str = "clean";

/// The status reported when the lint finds something.
pub const FINDINGS_STATUS: &'static str = "findings";

/// The message that accompanies a clean result.
pub const CLEAN_MESSAGE: &'static str =
    "100% clean sheet! The provided code block conforms perfectly to high-performance, idiomatic Rust standard specifications.";

/// A `for` loop that indexes: the code holds `for `, a length or a range
/// from zero, and both square brackets.
pub open spec fn shows_manual_index_loop(code: Seq<char>) -> bool {
    &&& has_substring(code, "for "@)
    &&& (has_substring(code, ".len()"@) || has_substring(code, "0.."@))
    &&& has_substring(code, "["@)
    &&& has_substring(code, "]"@)
}

/// A heap allocation: `Box::new` or `vec![`.
pub open spec fn shows_heap_allocation(code: Seq<char>) -> bool {
    has_substring(code, "Box::new"@) || has_substring(code, "vec!["@)
}

/// A call of `.unwrap()`.
pub open spec fn shows_unwrap(code: Seq<char>) -> bool {
    has_substring(code, ".unwrap()"@)
}

/// The findings for a code block, in the fixed order of the checks.
pub open spec fn lint_findings(code: Seq<char>) -> Seq<AntiPattern> {
    (if shows_manual_index_loop(code) {
        seq![AntiPattern::ManualIndexLoop]
    } else {
        seq![]
    }) + (if shows_heap_allocation(code) {
        seq![AntiPattern::HeapAllocation]
    } else {
        seq![]
    }) + (if shows_unwrap(code) {
        seq![AntiPattern::HazardousUnwrap]
    } else {
        seq![]
    })
}

impl AntiPattern {
    pub open spec fn spec_title(self) -> Seq<char> {
        match self {
            AntiPattern::ManualIndexLoop => MANUAL_LOOP_NAME@,
            AntiPattern::HeapAllocation => HEAP_NAME@,
            AntiPattern::HazardousUnwrap => UNWRAP_NAME@,
        }
    }

    pub open spec fn spec_severity(self) -> Seq<char> {
        match self {
            AntiPattern::ManualIndexLoop => MANUAL_LOOP_SEVERITY@,
            AntiPattern::HeapAllocation => HEAP_SEVERITY@,
            AntiPattern::HazardousUnwrap => UNWRAP_SEVERITY@,
        }
    }

    pub open spec fn spec_why_it_fails(self) -> Seq<char> {
        match self {
            AntiPattern::ManualIndexLoop => MANUAL_LOOP_WHY@,
            AntiPattern::HeapAllocation => HEAP_WHY@,
            AntiPattern::HazardousUnwrap => UNWRAP_WHY@,
        }
    }

    pub open spec fn spec_alternative(self) -> Seq<char> {
        match self {
            AntiPattern::ManualIndexLoop => MANUAL_LOOP_ALTERNATIVE@,
            AntiPattern::HeapAllocation => HEAP_ALTERNATIVE@,
            AntiPattern::HazardousUnwrap => UNWRAP_ALTERNATIVE@,
        }
    }

    /// The name of the anti-pattern.
    pub fn title(&self) -> (r: &'static str)
        ensures
            r@ == self.spec_title(),
    {
        match self {
            AntiPattern::ManualIndexLoop => MANUAL_LOOP_NAME,
            AntiPattern::HeapAllocation => HEAP_NAME,
            AntiPattern::HazardousUnwrap => UNWRAP_NAME,
        }
    }

    /// How serious the anti-pattern is.
    pub fn severity(&self) -> (r: &'static str)
        ensures
            r@ == self.spec_severity(),
    {
        match self {
            AntiPattern::ManualIndexLoop => MANUAL_LOOP_SEVERITY,
            AntiPattern::HeapAllocation => HEAP_SEVERITY,
            AntiPattern::HazardousUnwrap => UNWRAP_SEVERITY,
        }
    }

    /// Why the anti-pattern hurts.
    pub fn why_it_fails(&self) -> (r: &'static str)
        ensures
            r@ == self.spec_why_it_fails(),
    {
        match self {
            AntiPattern::ManualIndexLoop => MANUAL_LOOP_WHY,
            AntiPattern::HeapAllocation => HEAP_WHY,
            AntiPattern::HazardousUnwrap => UNWRAP_WHY,
        }
    }

    /// The idiomatic code to write instead.
    pub fn architectural_alternative(&self) -> (r: &'static str)
        ensures
            r@ == self.spec_alternative(),
    {
        match self {
            AntiPattern::ManualIndexLoop => MANUAL_LOOP_ALTERNATIVE,
            AntiPattern::HeapAllocation => HEAP_ALTERNATIVE,
            AntiPattern::HazardousUnwrap => UNWRAP_ALTERNATIVE,
        }
    }
}

/// Scans a Rust code block for the anti-patterns, in the order: manual index
/// loop, heap allocation, `.unwrap()`.
pub fn lint_idiomatic(code: &str) -> (findings: Vec<AntiPattern>)
    ensures
        findings@ == lint_findings(code@),
{
    let mut findings: Vec<AntiPattern> = Vec::new();
    let manual_loop = contains_text(code, "for ") && (contains_text(code, ".len()")
        || contains_text(code, "0..")) && contains_text(code, "[") && contains_text(code, "]");
    if manual_loop {
        findings.push(AntiPattern::ManualIndexLoop);
    }
    if contains_text(code, "Box::new") || contains_text(code, "vec![") {
        findings.push(AntiPattern::HeapAllocation);
    }
    if contains_text(code, ".unwrap()") {
        findings.push(AntiPattern::HazardousUnwrap);
    }
    assert(findings@ =~= lint_findings(code@));
    findings
}

/// The status of a lint result: clean exactly when nothing was found.
pub fn lint_status(findings: &Vec<AntiPattern>) -> (r: &'static str)
    ensures
        r@ == (if findings@.len() == 0 { CLEAN_STATUS@ } else { FINDINGS_STATUS@ }),
{
    if findings.len() == 0 {
        CLEAN_STATUS
    } else {
        FINDINGS_STATUS
    }
}

/// The lint reports each anti-pattern at most once, in the fixed order of
/// its checks, and a block is clean exactly when none of the checks fires.
pub proof fn lemma_lint_findings_shape(code: Seq<char>)
    ensures
        lint_findings(code).len() <= 3,
        forall|i: int, j: int|
            0 <= i < j < lint_findings(code).len() ==> lint_findings(code)[i] != lint_findings(
                code,
            )[j],
        lint_findings(code).len() == 0 <==> (!shows_manual_index_loop(code)
            && !shows_heap_allocation(code) && !shows_unwrap(code)),
        lint_findings(code).contains(AntiPattern::ManualIndexLoop) <==> shows_manual_index_loop(code),
        lint_findings(code).contains(AntiPattern::HeapAllocation) <==> shows_heap_allocation(code),
        lint_findings(code).contains(AntiPattern::HazardousUnwrap) <==> shows_unwrap(code),
{
    let a: Seq<AntiPattern> = if shows_manual_index_loop(code) {
        seq![AntiPattern::ManualIndexLoop]
    } else {
        seq![]
    };
    let b: Seq<AntiPattern> = if shows_heap_allocation(code) {
        seq![AntiPattern::HeapAllocation]
    } else {
        seq![]
    };
    let c: Seq<AntiPattern> = if shows_unwrap(code) {
        seq![AntiPattern::HazardousUnwrap]
    } else {
        seq![]
    };
    let f = lint_findings(code);
    assert(f == a + b + c);
    assert forall|i: int| 0 <= i < f.len() implies #[trigger] f[i] == (if i < a.len() {
        a[i]
    } else if i < a.len() + b.len() {
        b[i - a.len()]
    } else {
        c[i - a.len() - b.len()]
    }) by {}
    if shows_manual_index_loop(code) {
        assert(f[0] == AntiPattern::ManualIndexLoop);
    }
    if shows_heap_allocation(code) {
        assert(f[a.len() as int] == AntiPattern::HeapAllocation);
    }
    if shows_unwrap(code) {
        assert(f[(a.len() + b.len()) as int] == AntiPattern::HazardousUnwrap);
    }
}

/// The lint fires on the documented texts and on nothing else: the loop
/// finding needs `for `, `.len()` or `0..`, and both square brackets; the
/// heap finding needs `Box::new` or `vec![`; the unwrap finding needs
/// `.unwrap()` with its parentheses, so `unwrap_or` and its kin never
/// trigger it. Each finding appears at most once, loop before heap before
/// unwrap.
pub proof fn lemma_lint_fires_on_documented_texts(code: Seq<char>)
    ensures
        lint_findings(code).contains(AntiPattern::ManualIndexLoop) <==> (has_substring(code, "for "@)
            && (has_substring(code, ".len()"@) || has_substring(code, "0.."@)) && has_substring(
            code,
            "["@,
        ) && has_substring(code, "]"@)),
        lint_findings(code).contains(AntiPattern::HeapAllocation) <==> (has_substring(code, "Box::new"@)
            || has_substring(code, "vec!["@)),
        lint_findings(code).contains(AntiPattern::HazardousUnwrap) <==> has_substring(
            code,
            ".unwrap()"@,
        ),
        forall|i: int, j: int|
            0 <= i < j < lint_findings(code).len() ==> lint_findings(code)[i] != lint_findings(
                code,
            )[j],
        forall|i: int, j: int|
            0 <= i < j < lint_findings(code).len() ==> (lint_findings(code)[i]
                == AntiPattern::ManualIndexLoop || lint_findings(code)[j]
                == AntiPattern::HazardousUnwrap),
{
    lemma_lint_findings_shape(code);
    let f = lint_findings(code);
    assert forall|i: int, j: int|
        0 <= i < j < f.len() implies (f[i] == AntiPattern::ManualIndexLoop || f[j]
        == AntiPattern::HazardousUnwrap) by {
        let a: Seq<AntiPattern> = if shows_manual_index_loop(code) {
            seq![AntiPattern::ManualIndexLoop]
        } else {
            seq![]
        };
        let b: Seq<AntiPattern> = if shows_heap_allocation(code) {
            seq![AntiPattern::HeapAllocation]
        } else {
            seq![]
        };
        let c: Seq<AntiPattern> = if shows_unwrap(code) {
            seq![AntiPattern::HazardousUnwrap]
        } else {
            seq![]
        };
        assert(f == a + b + c);
        if i < a.len() {
            assert(f[i] == AntiPattern::ManualIndexLoop);
        } else {
            assert(j >= a.len() + b.len());
            assert(f[j] == c[j - a.len() - b.len()]);
        }
    }
}

// ---------------------------------------------------------------------------
// Pattern templates
// ---------------------------------------------------------------------------

/// The structural templates that can be injected.
#[derive(Clone, Copy, Debug, PartialEq, Eq, Structural)]
pub enum PatternKind {
    TypeStateBuilder,
    ThiserrorMapping,
    ParallelRayonLoop,
}

pub const TYPE_STATE_BUILDER_NAME: &'static str = "type_state_builder";

pub const THISERROR_MAPPING_NAME: &'static str = "thiserror_mapping";

pub const PARALLEL_RAYON_LOOP_NAME: &'static str = "parallel_rayon_loop";

pub const TYPE_STATE_BUILDER_SOURCE: &'static str = r#"// Elite Type-State Builder Pattern
pub struct Complete;
pub struct Missing;

pub struct ProjectBuilder<NameSet, PathSet> {
    name: Option<String>,
    path: Option<String>,
    _marker: std::marker::PhantomData<(NameSet, PathSet)>,
}

impl ProjectBuilder<Missing, Missing> {
    pub fn new() -> Self {
        Self {
            name: None,
            path: None,
            _marker: std::marker::PhantomData,
        }
    }
}

impl<PathSet> ProjectBuilder<Missing, PathSet> {
    pub fn name(self, name: impl Into<String>) -> ProjectBuilder<Complete, PathSet> {
        ProjectBuilder {
            name: Some(name.into()),
            path: self.path,
            _marker: std::marker::PhantomData,
        }
    }
}

impl<NameSet> ProjectBuilder<NameSet, Missing> {
    pub fn path(self, path: impl Into<String>) -> ProjectBuilder<NameSet, Complete> {
        ProjectBuilder {
            name: self.name,
            path: Some(path.into()),
            _marker: std::marker::PhantomData,
        }
    }
}

impl ProjectBuilder<Complete, Complete> {
    pub fn build(self) -> Project {
        Project {
            name: self.name.unwrap(),
            path: self.path.unwrap(),
        }
    }
}

pub struct Project {
    pub name: String,
    pub path: String,
}
"#;

pub const THISERROR_MAPPING_SOURCE: &'static str = r#"use thiserror::Error;

#[derive(Error, Debug)]
pub enum ApplianceError {
    #[error("Workspace I/O error occurred: {0}")]
    Io(#[from] std::io::Error),

    #[error("Failed to parse JSON configuration: {0}")]
    Serialization(#[from] serde_json::Error),

    #[error("Invalid pattern request: {0}")]
    InvalidPattern(String),
}
"#;

pub const PARALLEL_RAYON_LOOP_SOURCE: &'static str = r#"use rayon::prelude::*;

pub fn process_parallel(items: Vec<String>) -> Vec<String> {
    items.into_par_iter()
        .map(|item| {
            // Perform complex parallel calculations here
            item.to_uppercase()
        })
        .collect()
}
"#;

/// The message that follows the rejected name of an unknown pattern.
pub const SUPPORTED_PATTERNS_NOTE: &'static str =
    "'. Supported patterns: 'type_state_builder', 'thiserror_mapping', 'parallel_rayon_loop'";

pub open spec fn pattern_name(k: PatternKind) -> Seq<char> {
    match k {
        PatternKind::TypeStateBuilder => TYPE_STATE_BUILDER_NAME@,
        PatternKind::ThiserrorMapping => THISERROR_MAPPING_NAME@,
        PatternKind::ParallelRayonLoop => PARALLEL_RAYON_LOOP_NAME@,
    }
}

pub open spec fn pattern_source(k: PatternKind) -> Seq<char> {
    match k {
        PatternKind::TypeStateBuilder => TYPE_STATE_BUILDER_SOURCE@,
        PatternKind::ThiserrorMapping => THISERROR_MAPPING_SOURCE@,
        PatternKind::ParallelRayonLoop => PARALLEL_RAYON_LOOP_SOURCE@,
    }
}

/// The message for a pattern name that is not in the catalogue.
pub open spec fn unknown_pattern_message(name: Seq<char>) -> Seq<char> {
    "Unknown pattern: '"@ + name + SUPPORTED_PATTERNS_NOTE@
}

impl PatternKind {
    /// The name under which the pattern is asked for.
    pub fn name(&self) -> (r: &'static str)
        ensures
            r@ == pattern_name(*self),
    {
        match self {
            PatternKind::TypeStateBuilder => TYPE_STATE_BUILDER_NAME,
            PatternKind::ThiserrorMapping => THISERROR_MAPPING_NAME,
            PatternKind::ParallelRayonLoop => PARALLEL_RAYON_LOOP_NAME,
        }
    }

    /// The Rust source that the pattern writes.
    pub fn source(&self) -> (r: &'static str)
        ensures
            r@ == pattern_source(*self),
    {
        match self {
            PatternKind::TypeStateBuilder => TYPE_STATE_BUILDER_SOURCE,
            PatternKind::ThiserrorMapping => THISERROR_MAPPING_SOURCE,
            PatternKind::ParallelRayonLoop => PARALLEL_RAYON_LOOP_SOURCE,
        }
    }
}

/// Looks a pattern up by its exact name; an unknown name is refused with a
/// bad-request error that lists the supported names.
pub fn pattern_by_name(name: &str) -> (r: Result<PatternKind, ToolError>)
    ensures
        match r {
            Ok(k) => pattern_name(k) == name@,
            Err(e) => {
                &&& forall|k: PatternKind| pattern_name(k) != name@
                &&& e.code == BAD_REQUEST
                &&& e.message@ == unknown_pattern_message(name@)
            },
        },
{
    if text_eq(name, TYPE_STATE_BUILDER_NAME) {
        Ok(PatternKind::TypeStateBuilder)
    } else if text_eq(name, THISERROR_MAPPING_NAME) {
        Ok(PatternKind::ThiserrorMapping)
    } else if text_eq(name, PARALLEL_RAYON_LOOP_NAME) {
        Ok(PatternKind::ParallelRayonLoop)
    } else {
        let mut message = owned("Unknown pattern: '");
        push_text(&mut message, name);
        push_text(&mut message, SUPPORTED_PATTERNS_NOTE);
        assert forall|k: PatternKind| pattern_name(k) != name@ by {
            match k {
                PatternKind::TypeStateBuilder => {},
                PatternKind::ThiserrorMapping => {},
                PatternKind::ParallelRayonLoop => {},
            }
        }
        Err(ToolError { code: BAD_REQUEST, message })
    }
}

/// Each pattern has a name of its own, so looking up a pattern's name gives
/// back that pattern.
pub proof fn lemma_pattern_names_distinct(a: PatternKind, b: PatternKind)
    ensures
        pattern_name(a) == pattern_name(b) ==> a == b,
{
    reveal_strlit("type_state_builder");
    reveal_strlit("thiserror_mapping");
    reveal_strlit("parallel_rayon_loop");
    if pattern_name(a) == pattern_name(b) && a != b {
        match a {
            PatternKind::TypeStateBuilder => {
                assert(pattern_name(a)[1] == 'y');
                match b {
                    PatternKind::ThiserrorMapping => assert(pattern_name(b)[1] == 'h'),
                    _ => assert(pattern_name(b)[1] == 'a'),
                }
            },
            PatternKind::ThiserrorMapping => {
                assert(pattern_name(a)[1] == 'h');
                match b {
                    PatternKind::TypeStateBuilder => assert(pattern_name(b)[1] == 'y'),
                    _ => assert(pattern_name(b)[1] == 'a'),
                }
            },
            PatternKind::ParallelRayonLoop => {
                assert(pattern_name(a)[1] == 'a');
                match b {
                    PatternKind::TypeStateBuilder => assert(pattern_name(b)[1] == 'y'),
                    _ => assert(pattern_name(b)[1] == 'h'),
                }
            },
        }
    }
}

/// Each pattern writes its own template: the pattern named
/// `type_state_builder` writes the type-state builder source, the one named
/// `thiserror_mapping` the error-mapping source, and the one named
/// `parallel_rayon_loop` the rayon loop source.
pub proof fn lemma_each_pattern_writes_its_own_template(k: PatternKind)
    ensures
        pattern_name(k) == TYPE_STATE_BUILDER_NAME@ ==> pattern_source(k) == TYPE_STATE_BUILDER_SOURCE@,
        pattern_name(k) == THISERROR_MAPPING_NAME@ ==> pattern_source(k) == THISERROR_MAPPING_SOURCE@,
        pattern_name(k) == PARALLEL_RAYON_LOOP_NAME@ ==> pattern_source(k)
            == PARALLEL_RAYON_LOOP_SOURCE@,
{
    lemma_pattern_names_distinct(k, PatternKind::TypeStateBuilder);
    lemma_pattern_names_distinct(k, PatternKind::ThiserrorMapping);
    lemma_pattern_names_distinct(k, PatternKind::ParallelRayonLoop);
}

} // verus!
