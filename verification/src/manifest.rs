//! The crate advisor's manifest audit: which dependencies of a `Cargo.toml`
//! are checked against the registry, and the recommendation drawn from
//! each answer. The audit runs one dependency at a time, each lookup behind
//! the registry's one-second pause; the caller performs the lookups.
use vstd::prelude::*;

use crate::crates::LOOKUP_PAUSE_MS;
use crate::error::{ToolError, BAD_REQUEST};
use crate::text::{char_vec, owned, push_text, text_eq};

verus! {

/// How a dependency is declared: a version string, a table (with its
/// `version` where that is a string), or anything else.
pub enum DeclaredVersion {
    Text(String),
    Table(Option<String>),
    Other,
}

/// One entry of the `[dependencies]` table.
pub struct DeclaredDependency {
    pub name: String,
    pub version: DeclaredVersion,
}

/// A declaration as plain values.
pub enum DeclaredVersionView {
    Text(Seq<char>),
    Table(Option<Seq<char>>),
    Other,
}

pub open spec fn version_view(v: DeclaredVersion) -> DeclaredVersionView {
    match v {
        DeclaredVersion::Text(s) => DeclaredVersionView::Text(s@),
        DeclaredVersion::Table(Some(s)) => DeclaredVersionView::Table(Some(s@)),
        DeclaredVersion::Table(None) => DeclaredVersionView::Table(None),
        DeclaredVersion::Other => DeclaredVersionView::Other,
    }
}

/// A list of declarations as (name, declaration).
pub open spec fn declarations_view(ds: Seq<DeclaredDependency>) -> Seq<
    (Seq<char>, DeclaredVersionView),
> {
    Seq::new(ds.len(), |i: int| (ds[i].name@, version_view(ds[i].version)))
}

/// What reading a manifest text with `toml::from_str` gives: the parser's
/// description of the error where the text is refused; else the entries of
/// its `[dependencies]` table, in the table's order, or `None` where the
/// document has no such table.
pub uninterp spec fn manifest_dependency_table(content: Seq<char>) -> Result<
    Option<Seq<(Seq<char>, DeclaredVersionView)>>,
    Seq<char>,
>;

/// Calls `toml::from_str` for a `toml::Value` (an error is turned into its
/// `Display` text), then `get("dependencies")` and `as_table`, and reads each
/// entry by its variant (`get("version")` and `as_str` for a table). What
/// comes back is named `manifest_dependency_table` of the text.
#[verifier::external_body]
fn read_dependency_table(content: &str) -> (r: Result<Option<Vec<DeclaredDependency>>, String>)
    ensures
        match r {
            Ok(Some(ds)) => manifest_dependency_table(content@) == Ok::<_, Seq<char>>(
                Some(declarations_view(ds@)),
            ),
            Ok(None) => manifest_dependency_table(content@) == Ok::<_, Seq<char>>(
                None::<Seq<(Seq<char>, DeclaredVersionView)>>,
            ),
            Err(m) => manifest_dependency_table(content@) == Err::<
                Option<Seq<(Seq<char>, DeclaredVersionView)>>,
                Seq<char>,
            >(m@),
        },
{
    let doc = toml::from_str::<toml::Value>(content).map_err(|e| e.to_string())?;
    Ok(doc.get("dependencies").and_then(|d| d.as_table()).map(|t| t.iter().map(|(name, value)| DeclaredDependency {
        name: name.clone(),
        version: match value {
            toml::Value::String(s) => DeclaredVersion::Text(s.clone()),
            toml::Value::Table(t) => DeclaredVersion::Table(t.get("version").and_then(|v| v.as_str()).map(String::from)),
            _ => DeclaredVersion::Other,
        },
    }).collect()))
}

/// The version text of a declaration: the string, the table's version, or
/// empty.
pub open spec fn declared_version(v: DeclaredVersionView) -> Seq<char> {
    match v {
        DeclaredVersionView::Text(s) => s,
        DeclaredVersionView::Table(Some(s)) => s,
        _ => seq![],
    }
}

/// The dependencies that are looked up, as (name, current version): those
/// with a non-empty version text, in the order of the dependency table as it was read
/// (the TOML reader lists the table by key).
pub open spec fn lookups_of(decls: Seq<(Seq<char>, DeclaredVersionView)>) -> Seq<
    (Seq<char>, Seq<char>),
>
    decreases decls.len(),
{
    if decls.len() == 0 {
        seq![]
    } else {
        let prev = lookups_of(decls.drop_last());
        let v = declared_version(decls.last().1);
        if v.len() > 0 {
            prev.push((decls.last().0, v))
        } else {
            prev
        }
    }
}

/// The registry's answer to one lookup.
pub enum LookupOutcome {
    /// The request did not get through.
    Unreachable,
    /// The registry answered with an unsuccessful status.
    ErrorStatus,
    /// The registry answered; the crate's latest stable version
    /// (`max_stable_version`) where the body holds one as a string.
    Answered(Option<String>),
}

#[derive(Clone, Copy, Debug, PartialEq, Eq, Structural)]
pub enum UpdateStatus {
    UpdateAvailable,
    UpToDate,
}

pub const UPDATE_AVAILABLE: &'static str = "Update Available";

pub const UP_TO_DATE: &'static str = "Up to date";

pub const NO_ACTION: &'static str = "None";

pub const INVALID_MANIFEST_PREFIX: &'static str = "Invalid Cargo.toml syntax: ";

impl UpdateStatus {
    /// The status as it is reported.
    pub fn label(&self) -> (r: &'static str)
        ensures
            r@ == (match *self {
                UpdateStatus::UpdateAvailable => UPDATE_AVAILABLE@,
                UpdateStatus::UpToDate => UP_TO_DATE@,
            }),
    {
        match self {
            UpdateStatus::UpdateAvailable => UPDATE_AVAILABLE,
            UpdateStatus::UpToDate => UP_TO_DATE,
        }
    }
}

/// The advice for one dependency.
pub struct Recommendation {
    pub dependency: String,
    pub current_version: String,
    pub latest_version: String,
    pub status: UpdateStatus,
    pub recommendation: String,
}

/// A recommendation as plain values:
/// (dependency, current version, latest version, status, advice).
pub type RecommendationView = (Seq<char>, Seq<char>, Seq<char>, UpdateStatus, Seq<char>);

pub open spec fn recommendation_view(r: Recommendation) -> RecommendationView {
    (r.dependency@, r.current_version@, r.latest_version@, r.status, r.recommendation@)
}

/// The advice to move from `current` to `latest`.
pub open spec fn upgrade_advice(name: Seq<char>, current: Seq<char>, latest: Seq<char>) -> Seq<
    char,
> {
    "Upgrade '"@ + name + "' from '"@ + current + "' to '"@ + latest + "'"@
}

/// A semantic version with a pre-release part: a `-` before any `+`.
pub open spec fn is_prerelease(v: Seq<char>) -> bool {
    exists|i: int| 0 <= i < v.len() && v[i] == '-' && forall|j: int| 0 <= j < i ==> v[j] != '+'
}

/// Whether a version text has a pre-release part.
pub fn prerelease(v: &str) -> (r: bool)
    ensures
        r == is_prerelease(v@),
{
    let cs = char_vec(v);
    let mut i: usize = 0;
    while i < cs.len()
        invariant
            cs@ == v@,
            i <= cs@.len(),
            forall|j: int| 0 <= j < i ==> cs@[j] != '+' && cs@[j] != '-',
        decreases cs@.len() - i,
    {
        if cs[i] == '-' {
            return true;
        }
        if cs[i] == '+' {
            assert forall|k: int| 0 <= k < v@.len() && v@[k] == '-' implies exists|j: int|
                0 <= j < k && v@[j] == '+' by {
                assert(k > i);
            }
            return false;
        }
        i += 1;
    }
    false
}

/// What one lookup yields: nothing unless the registry named a latest
/// stable version; an update where it differs from the current one and is
/// not empty, else up to date. A named version with a pre-release part is
/// not a stable one and yields nothing.
pub open spec fn assessment(name: Seq<char>, current: Seq<char>, outcome: LookupOutcome) -> Option<
    RecommendationView,
> {
    match outcome {
        LookupOutcome::Answered(Some(latest)) => if is_prerelease(latest@) {
            None
        } else {
            if current != latest@ && latest@.len() > 0 {
                Some(
                    (
                        name,
                        current,
                        latest@,
                        UpdateStatus::UpdateAvailable,
                        upgrade_advice(name, current, latest@),
                    ),
                )
            } else {
                Some((name, current, latest@, UpdateStatus::UpToDate, NO_ACTION@))
            }
        },
        _ => None,
    }
}

/// A lookup yields a recommendation exactly when the registry named a
/// latest stable version; the recommendation is an update exactly when that
/// version is not empty and differs from the declared one, so an update
/// never names a pre-release.
pub proof fn lemma_update_only_when_versions_differ(
    name: Seq<char>,
    current: Seq<char>,
    outcome: LookupOutcome,
)
    ensures
        assessment(name, current, outcome) is Some <==> (outcome matches LookupOutcome::Answered(
            Some(latest),
        ) && !is_prerelease(latest@)),
        (assessment(name, current, outcome) matches Some(r) && r.3 == UpdateStatus::UpdateAvailable)
            <==> (outcome matches LookupOutcome::Answered(Some(latest)) && !is_prerelease(latest@)
            && latest@ != current && latest@.len() > 0),
        assessment(name, current, outcome) matches Some(r) ==> !is_prerelease(r.2),
{
}

/// Every recommendation names the dependency that was looked up, reports
/// as its current version the version declared for it and as its latest
/// version the one the registry named; an update's advice names exactly
/// those versions, and "up to date" means the two agree or the registry
/// named an empty one.
pub proof fn lemma_recommendation_reports_its_versions(
    name: Seq<char>,
    current: Seq<char>,
    outcome: LookupOutcome,
)
    ensures
        assessment(name, current, outcome) matches Some(r) ==> {
            &&& r.0 == name
            &&& r.1 == current
            &&& outcome matches LookupOutcome::Answered(Some(latest)) && r.2 == latest@
            &&& r.3 == UpdateStatus::UpdateAvailable ==> r.2 != current && r.4 == "Upgrade '"@ + name
                + "' from '"@ + current + "' to '"@ + r.2 + "'"@
            &&& r.3 == UpdateStatus::UpToDate ==> (r.2 == current || r.2.len() == 0) && r.4
                == "None"@
        },
{
}

/// The recommendations from the first `n` lookups, in order.
pub open spec fn assessed(
    lookups: Seq<(Seq<char>, Seq<char>)>,
    outcomes: Seq<LookupOutcome>,
    n: nat,
) -> Seq<RecommendationView>
    decreases n,
{
    if n == 0 {
        seq![]
    } else {
        let prev = assessed(lookups, outcomes, (n - 1) as nat);
        match assessment(lookups[n - 1].0, lookups[n - 1].1, outcomes[n - 1]) {
            Some(r) => prev.push(r),
            None => prev,
        }
    }
}

/// The recommendation drawn from one lookup, if any.
pub fn assess(name: &str, current: &str, outcome: &LookupOutcome) -> (r: Option<Recommendation>)
    ensures
        match r {
            Some(rec) => assessment(name@, current@, *outcome) == Some(recommendation_view(rec)),
            None => assessment(name@, current@, *outcome) is None,
        },
{
    match outcome {
        LookupOutcome::Answered(Some(latest)) => {
            if prerelease(latest.as_str()) {
                return None;
            }
            let differs = !text_eq(current, latest.as_str());
            if differs && !latest.as_str().is_empty() {
                let mut advice = owned("Upgrade '");
                push_text(&mut advice, name);
                push_text(&mut advice, "' from '");
                push_text(&mut advice, current);
                push_text(&mut advice, "' to '");
                push_text(&mut advice, latest.as_str());
                push_text(&mut advice, "'");
                Some(
                    Recommendation {
                        dependency: owned(name),
                        current_version: owned(current),
                        latest_version: latest.clone(),
                        status: UpdateStatus::UpdateAvailable,
                        recommendation: advice,
                    },
                )
            } else {
                Some(
                    Recommendation {
                        dependency: owned(name),
                        current_version: owned(current),
                        latest_version: latest.clone(),
                        status: UpdateStatus::UpToDate,
                        recommendation: owned(NO_ACTION),
                    },
                )
            }
        },
        _ => None,
    }
}

/// One dependency waiting for its lookup.
pub struct PendingLookup {
    pub name: String,
    pub current_version: String,
}

/// What the caller does next.
pub enum AuditStep {
    /// Wait `pause_ms` milliseconds, then look `crate_name` up.
    PauseThenLookup { pause_ms: u64, crate_name: String },
    /// Every dependency has been looked up.
    Finished,
}

/// A manifest audit in progress: the lookups to make, how many are done,
/// the recommendations so far and the answers received. Its fields are
/// private, so only the audit's own methods change it and its invariant
/// `wf` always holds of the audits that callers get.
pub struct ManifestAudit {
    pending: Vec<PendingLookup>,
    done: usize,
    recommendations: Vec<Recommendation>,
    outcomes: Ghost<Seq<LookupOutcome>>,
}

impl ManifestAudit {
    /// The lookups as (name, current version), in order.
    pub closed spec fn lookups(&self) -> Seq<(Seq<char>, Seq<char>)> {
        Seq::new(
            self.pending@.len(),
            |i: int| (self.pending@[i].name@, self.pending@[i].current_version@),
        )
    }

    /// How many lookups have been answered.
    pub closed spec fn done_count(&self) -> nat {
        self.done as nat
    }

    /// The answers received, in order.
    pub closed spec fn answers(&self) -> Seq<LookupOutcome> {
        self.outcomes@
    }

    /// The recommendations so far, as plain values.
    pub closed spec fn advice(&self) -> Seq<RecommendationView> {
        Seq::new(self.recommendations@.len(), |i: int| recommendation_view(self.recommendations@[i]))
    }

    /// The audit's invariant.
    pub closed spec fn wf(&self) -> bool {
        &&& self.done <= self.pending@.len()
        &&& self.outcomes@.len() == self.done
        &&& self.advice() == assessed(self.lookups(), self.outcomes@, self.done as nat)
        &&& forall|i: int| 0 <= i < self.pending@.len() ==> #[trigger] self.pending@[i].current_version@.len() > 0
    }

    /// What the invariant says: every dependency looked up has a version;
    /// `done_count` lookups have been answered; and the recommendations are
    /// exactly those drawn from the answers, in order.
    pub proof fn lemma_audit_invariant(&self)
        requires
            self.wf(),
        ensures
            self.done_count() <= self.lookups().len(),
            self.answers().len() == self.done_count(),
            self.advice() == assessed(self.lookups(), self.answers(), self.done_count()),
            forall|i: int| 0 <= i < self.lookups().len() ==> #[trigger] self.lookups()[i].1.len() > 0,
    {
        assert forall|i: int| 0 <= i < self.lookups().len() implies #[trigger] self.lookups()[i].1.len() > 0 by {
            assert(self.pending@[i].current_version@.len() > 0);
        }
    }

    /// A fresh audit of the declared dependencies: those with a version text
    /// are looked up, in the order in which the declarations are given.
    pub fn from_declarations(decls: &Vec<DeclaredDependency>) -> (a: Self)
        ensures
            a.wf(),
            a.done_count() == 0,
            a.lookups() == lookups_of(declarations_view(decls@)),
    {
        let mut pending: Vec<PendingLookup> = Vec::new();
        let mut i: usize = 0;
        while i < decls.len()
            invariant
                i <= decls@.len(),
                Seq::new(pending@.len(), |k: int| (pending@[k].name@, pending@[k].current_version@))
                    == lookups_of(declarations_view(decls@).take(i as int)),
                forall|k: int| 0 <= k < pending@.len() ==> #[trigger] pending@[k].current_version@.len() > 0,
            decreases decls@.len() - i,
        {
            assert(declarations_view(decls@).take(i + 1).drop_last() =~= declarations_view(decls@).take(i as int));
            let d = &decls[i];
            let version = match &d.version {
                DeclaredVersion::Text(s) => s.clone(),
                DeclaredVersion::Table(Some(s)) => s.clone(),
                _ => String::new(),
            };
            if !version.as_str().is_empty() {
                pending.push(PendingLookup { name: d.name.clone(), current_version: version });
            }
            assert(Seq::new(pending@.len(), |k: int| (pending@[k].name@, pending@[k].current_version@))
                =~= lookups_of(declarations_view(decls@).take(i + 1)));
            i += 1;
        }
        assert(declarations_view(decls@).take(decls@.len() as int) =~= declarations_view(decls@));
        let a = ManifestAudit {
            pending,
            done: 0,
            recommendations: Vec::new(),
            outcomes: Ghost(Seq::empty()),
        };
        assert(a.advice() =~= Seq::<RecommendationView>::empty());
        a
    }

    /// How many dependencies are looked up.
    pub fn lookup_count(&self) -> (r: usize)
        ensures
            r == self.lookups().len(),
    {
        self.pending.len()
    }

    /// The recommendations so far.
    pub fn recommendations(&self) -> (r: &Vec<Recommendation>)
        ensures
            r@.len() == self.advice().len(),
            forall|i: int| 0 <= i < r@.len() ==> recommendation_view(#[trigger] r@[i]) == self.advice()[i],
    {
        &self.recommendations
    }

    /// Whether every lookup has been answered.
    pub fn is_finished(&self) -> (r: bool)
        requires
            self.wf(),
        ensures
            r == (self.done_count() == self.lookups().len()),
    {
        self.done == self.pending.len()
    }

    /// The next step: the next lookup, always behind the registry pause, or
    /// the end.
    pub fn next_step(&self) -> (s: AuditStep)
        requires
            self.wf(),
        ensures
            self.done_count() < self.lookups().len() ==> (s matches AuditStep::PauseThenLookup {
                pause_ms,
                crate_name,
            } && pause_ms == LOOKUP_PAUSE_MS && crate_name@ == self.lookups()[self.done_count() as int].0),
            self.done_count() == self.lookups().len() ==> s is Finished,
    {
        if self.done < self.pending.len() {
            AuditStep::PauseThenLookup {
                pause_ms: LOOKUP_PAUSE_MS,
                crate_name: self.pending[self.done].name.clone(),
            }
        } else {
            AuditStep::Finished
        }
    }

    /// Records the registry's answer to the pending lookup.
    pub fn record_lookup(&mut self, outcome: LookupOutcome)
        requires
            old(self).wf(),
            old(self).done_count() < old(self).lookups().len(),
        ensures
            final(self).wf(),
            final(self).done_count() == old(self).done_count() + 1,
            final(self).lookups() == old(self).lookups(),
            final(self).answers() == old(self).answers().push(outcome),
            final(self).advice() == (match assessment(
                old(self).lookups()[old(self).done_count() as int].0,
                old(self).lookups()[old(self).done_count() as int].1,
                outcome,
            ) {
                Some(r) => old(self).advice().push(r),
                None => old(self).advice(),
            }),
    {
        let ghost prev_lookups = self.lookups();
        let ghost prev_advice = self.advice();
        let i = self.done;
        assert(i < self.pending.len());
        let next = i + 1;
        let r = assess(self.pending[i].name.as_str(), self.pending[i].current_version.as_str(), &outcome);
        match r {
            Some(rec) => {
                self.recommendations.push(rec);
            },
            None => {},
        }
        self.outcomes = Ghost(self.outcomes@.push(outcome));
        self.done = next;
        assert(self.lookups() =~= prev_lookups);
        let ghost outs = self.outcomes@;
        assert(outs[i as int] == outcome);
        assert(assessed(prev_lookups, outs, i as nat) == assessed(prev_lookups, old(self).outcomes@, i as nat)) by {
            lemma_assessed_prefix(prev_lookups, prev_lookups, old(self).outcomes@, outs, i as nat);
        }
        assert(self.advice() =~= (match assessment(prev_lookups[i as int].0, prev_lookups[i as int].1, outcome) {
            Some(x) => prev_advice.push(x),
            None => prev_advice,
        }));
    }
}

/// The first `n` recommendations depend only on the first `n` lookups and answers.
proof fn lemma_assessed_prefix(
    la: Seq<(Seq<char>, Seq<char>)>,
    lb: Seq<(Seq<char>, Seq<char>)>,
    a: Seq<LookupOutcome>,
    b: Seq<LookupOutcome>,
    n: nat,
)
    requires
        n <= la.len(),
        n <= lb.len(),
        n <= a.len(),
        n <= b.len(),
        forall|i: int| 0 <= i < n ==> la[i] == lb[i] && a[i] == b[i],
    ensures
        assessed(la, a, n) == assessed(lb, b, n),
    decreases n,
{
    if n > 0 {
        lemma_assessed_prefix(la, lb, a, b, (n - 1) as nat);
    }
}

/// A dependency whose lookup yields nothing (unreachable registry, error
/// status, no stable version named) leaves the recommendations exactly as
/// they would be had it not been declared: the other dependencies are
/// reported as before, in the same order.
pub proof fn lemma_failed_lookup_is_as_if_absent(
    lookups: Seq<(Seq<char>, Seq<char>)>,
    outcomes: Seq<LookupOutcome>,
    n: nat,
    k: int,
)
    requires
        n <= lookups.len(),
        n <= outcomes.len(),
        0 <= k < n,
        assessment(lookups[k].0, lookups[k].1, outcomes[k]) is None,
    ensures
        assessed(lookups, outcomes, n) == assessed(lookups.remove(k), outcomes.remove(k), (n
            - 1) as nat),
    decreases n,
{
    let lr = lookups.remove(k);
    let or = outcomes.remove(k);
    lookups.remove_ensures(k);
    outcomes.remove_ensures(k);
    if k == n - 1 {
        lemma_assessed_prefix(lookups, lr, outcomes, or, (n - 1) as nat);
    } else {
        lemma_failed_lookup_is_as_if_absent(lookups, outcomes, (n - 1) as nat, k);
        assert(lr[n - 2] == lookups[n - 1]);
        assert(or[n - 2] == outcomes[n - 1]);
    }
}

/// Starts the audit of a manifest's text. A text that is not TOML is a bad
/// request whose message carries the parser's description; a document
/// without a dependency table has nothing to look up.
pub fn audit_manifest(content: &str) -> (r: Result<ManifestAudit, ToolError>)
    ensures
        match manifest_dependency_table(content@) {
            Err(description) => r matches Err(e) && e.code == BAD_REQUEST && e.message@
                == INVALID_MANIFEST_PREFIX@ + description,
            Ok(table) => r matches Ok(a) && a.wf() && a.done_count() == 0 && a.lookups() == match table {
                Some(t) => lookups_of(t),
                None => Seq::<(Seq<char>, Seq<char>)>::empty(),
            },
        },
{
    match read_dependency_table(content) {
        Err(detail) => {
            let mut message = owned(INVALID_MANIFEST_PREFIX);
            push_text(&mut message, detail.as_str());
            Err(ToolError { code: BAD_REQUEST, message })
        },
        Ok(table) => {
            let decls = match table {
                Some(ds) => ds,
                None => Vec::new(),
            };
            let audit = ManifestAudit::from_declarations(&decls);
            assert(lookups_of(declarations_view(decls@)) =~= match manifest_dependency_table(content@) {
                Ok(Some(t)) => lookups_of(t),
                _ => Seq::<(Seq<char>, Seq<char>)>::empty(),
            });
            Ok(audit)
        },
    }
}

} // verus!
