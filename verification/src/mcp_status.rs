//! The decisions behind the `tracedecay_status`, `tracedecay_active_project`,
//! and `tracedecay_runtime` tool answers: how convergence and code-index
//! freshness are summarized, whether retrieval can serve, and what the
//! historical session catch-up reports.

use vstd::prelude::*;
use vstd::string::*;

use crate::convergence::{SchemaConvergenceFindingV1, SchemaConvergenceStateV1};
use crate::text::{insert_sorted_text, str_eq, strictly_sorted_texts, text_views};

verus! {

/// Overall convergence status: degraded if any store is, in progress if any
/// is still pending or converging, completed otherwise.
pub open spec fn convergence_summary(findings: Seq<SchemaConvergenceFindingV1>) -> Seq<char> {
    if exists|i: int|
        0 <= i < findings.len() && #[trigger] findings[i].state
            == SchemaConvergenceStateV1::Degraded {
        "degraded"@
    } else if exists|i: int|
        0 <= i < findings.len() && (#[trigger] findings[i].state
            == SchemaConvergenceStateV1::PendingSchemaMigration || findings[i].state
            == SchemaConvergenceStateV1::ReleasedShapeConvergenceInProgress) {
        "in_progress"@
    } else {
        "completed"@
    }
}

pub fn schema_convergence_status(findings: &Vec<SchemaConvergenceFindingV1>) -> (r: &'static str)
    ensures
        r@ == convergence_summary(findings@),
{
    let mut any_degraded = false;
    let mut any_in_progress = false;
    let mut i: usize = 0;
    while i < findings.len()
        invariant
            0 <= i <= findings.len(),
            any_degraded == exists|j: int|
                0 <= j < i && #[trigger] findings@[j].state == SchemaConvergenceStateV1::Degraded,
            any_in_progress == exists|j: int|
                0 <= j < i && (#[trigger] findings@[j].state
                    == SchemaConvergenceStateV1::PendingSchemaMigration || findings@[j].state
                    == SchemaConvergenceStateV1::ReleasedShapeConvergenceInProgress),
        decreases findings.len() - i,
    {
        let state = findings[i].state;
        if state == SchemaConvergenceStateV1::Degraded {
            any_degraded = true;
        }
        if state == SchemaConvergenceStateV1::PendingSchemaMigration || state
            == SchemaConvergenceStateV1::ReleasedShapeConvergenceInProgress {
            any_in_progress = true;
        }
        i = i + 1;
    }
    if any_degraded {
        "degraded"
    } else if any_in_progress {
        "in_progress"
    } else {
        "completed"
    }
}

/// Why background convergence of a worktree's code index is parked.
#[derive(Clone, Debug, Default, PartialEq, Eq)]
pub struct CodeIndexConvergenceParkedV1 {
    pub reason: String,
    pub remediation: String,
    pub parked_at_micros: i64,
    pub observed_passes: u64,
    pub retries_on_wake: bool,
}

/// Whether the code graph can serve reads.
#[derive(Clone, Copy, Debug, PartialEq, Eq, Structural)]
pub enum CodeGraphServingReadinessV1 {
    Ready,
    Unavailable,
}

/// One worktree's code-index freshness reading.
#[derive(Clone, Debug, PartialEq, Eq)]
pub struct CodeIndexWorktreeFreshnessV1 {
    pub worktree_root: String,
    pub latest_generation_id: Option<String>,
    pub staleness_state: Option<String>,
    pub coverage: String,
    pub parked: Option<CodeIndexConvergenceParkedV1>,
    pub code_graph_serving: Option<CodeGraphServingReadinessV1>,
    pub source_reference: Option<String>,
    pub source_revision: Option<String>,
    pub sealed_at_micros: Option<i64>,
    pub last_reconcile_micros: Option<i64>,
    pub rebuild_in_flight: bool,
}

impl Default for CodeIndexWorktreeFreshnessV1 {
    fn default() -> (r: Self)
        ensures
            r.worktree_root@ == Seq::<char>::empty(),
            r.latest_generation_id is None,
            r.staleness_state is None,
            r.coverage@ == Seq::<char>::empty(),
            r.parked is None,
            r.code_graph_serving is None,
            r.source_reference is None,
            r.source_revision is None,
            r.sealed_at_micros is None,
            r.last_reconcile_micros is None,
            !r.rebuild_in_flight,
    {
        CodeIndexWorktreeFreshnessV1 {
            worktree_root: String::new(),
            latest_generation_id: None,
            staleness_state: None,
            coverage: String::new(),
            parked: None,
            code_graph_serving: None,
            source_reference: None,
            source_revision: None,
            sealed_at_micros: None,
            last_reconcile_micros: None,
            rebuild_in_flight: false,
        }
    }
}

/// The freshness payload of the code-index scheduler: one reading per
/// mounted worktree, the requested worktree first.
#[derive(Clone, Debug, Default, PartialEq, Eq)]
pub struct CodeIndexFreshnessPayloadV1 {
    pub worktrees: Vec<CodeIndexWorktreeFreshnessV1>,
}

pub open spec fn staleness_is(f: CodeIndexWorktreeFreshnessV1, state: Seq<char>) -> bool {
    match f.staleness_state {
        Some(s) => s@ == state,
        None => false,
    }
}

/// A sealed complete generation is current for the worktree.
pub open spec fn freshness_authoritative(f: CodeIndexWorktreeFreshnessV1) -> bool {
    f.latest_generation_id is Some && f.coverage@ == "complete"@ && staleness_is(f, "fresh"@)
}

/// The operator-facing status label of a freshness reading.
pub open spec fn freshness_status_label(f: CodeIndexWorktreeFreshnessV1) -> Seq<char> {
    if f.parked is Some {
        if staleness_is(f, "parked"@) {
            "parked"@
        } else if freshness_authoritative(f) {
            "current"@
        } else {
            "warming"@
        }
    } else if freshness_authoritative(f) {
        "current"@
    } else if staleness_is(f, "verifying"@) {
        "stale"@
    } else {
        "warming"@
    }
}

/// The warning that accompanies a freshness reading, if any.
pub open spec fn freshness_warning(f: CodeIndexWorktreeFreshnessV1) -> Option<Seq<char>> {
    match f.parked {
        Some(parked) => Some(
            "code-index background convergence is parked: "@ + parked.reason@ + "; "@
                + parked.remediation@,
        ),
        None => if freshness_authoritative(f) {
            None
        } else if staleness_is(f, "verifying"@) {
            Some(
                "the last complete code index remains available while the scheduler verifies source freshness"@,
            )
        } else {
            Some(
                "graph counts are not authoritative until the scheduler seals a complete fresh generation"@,
            )
        },
    }
}

fn staleness_equals(f: &CodeIndexWorktreeFreshnessV1, state: &str) -> (r: bool)
    ensures
        r == staleness_is(*f, state@),
{
    match &f.staleness_state {
        Some(s) => str_eq(s.as_str(), state),
        None => false,
    }
}

fn is_authoritative(f: &CodeIndexWorktreeFreshnessV1) -> (r: bool)
    ensures
        r == freshness_authoritative(*f),
{
    f.latest_generation_id.is_some() && str_eq(f.coverage.as_str(), "complete") && staleness_equals(
        f,
        "fresh",
    )
}

/// Projects one freshness reading into its status label and warning. Only
/// `warming` converges by waiting; a `parked` reading names the deterministic
/// violation and its remediation instead.
pub fn code_index_freshness_projection(freshness: &CodeIndexWorktreeFreshnessV1) -> (r: (
    &'static str,
    Option<String>,
))
    ensures
        r.0@ == freshness_status_label(*freshness),
        match r.1 {
            Some(w) => freshness_warning(*freshness) == Some(w@),
            None => freshness_warning(*freshness) is None,
        },
{
    let authoritative = is_authoritative(freshness);
    match &freshness.parked {
        Some(parked) => {
            let mut warning = String::from_str("code-index background convergence is parked: ");
            warning.append(parked.reason.as_str());
            warning.append("; ");
            warning.append(parked.remediation.as_str());
            let status = if staleness_equals(freshness, "parked") {
                "parked"
            } else if authoritative {
                "current"
            } else {
                "warming"
            };
            (status, Some(warning))
        },
        None => {
            if authoritative {
                ("current", None)
            } else if staleness_equals(freshness, "verifying") {
                (
                    "stale",
                    Some(
                        String::from_str(
                            "the last complete code index remains available while the scheduler verifies source freshness",
                        ),
                    ),
                )
            } else {
                (
                    "warming",
                    Some(
                        String::from_str(
                            "graph counts are not authoritative until the scheduler seals a complete fresh generation",
                        ),
                    ),
                )
            }
        },
    }
}

/// Whole seconds elapsed since a recorded microsecond timestamp, clamped at
/// zero; `None` when nothing was recorded.
pub open spec fn age_seconds_spec(recorded: Option<i64>, now_micros: i64) -> Option<i64> {
    match recorded {
        Some(at) => Some(
            ((if now_micros - at > i64::MAX {
                i64::MAX as int
            } else if now_micros - at < 0 {
                0
            } else {
                now_micros - at
            }) / 1_000_000) as i64,
        ),
        None => None,
    }
}

pub fn age_seconds(recorded_at_micros: Option<i64>, now_micros: i64) -> (r: Option<i64>)
    ensures
        r == age_seconds_spec(recorded_at_micros, now_micros),
{
    match recorded_at_micros {
        Some(recorded) => {
            let difference: i128 = (now_micros as i128) - (recorded as i128);
            let clamped: i64 = if difference > (i64::MAX as i128) {
                i64::MAX
            } else if difference < 0 {
                0
            } else {
                difference as i64
            };
            Some(clamped / 1_000_000)
        },
        None => None,
    }
}

/// Whether exact-scope code retrieval can serve, from the same sealed
/// generation census the retrieval lanes enforce.
#[derive(Clone, Debug, PartialEq, Eq)]
pub enum CodeIndexRetrievalServingV1 {
    /// A sealed complete generation exists for the worktree.
    Serving {
        freshness: &'static str,
        condition: Option<&'static str>,
        seated_generation_age_seconds: Option<i64>,
        last_reconcile_age_seconds: Option<i64>,
    },
    /// The census answered and nothing is servable yet.
    NotServing { reason: &'static str },
    /// No census authority is attached; serving can be neither claimed nor
    /// denied.
    AuthorityUnattached,
}

impl CodeIndexRetrievalServingV1 {
    /// Whether a serving branch may be named beside this serving state: not
    /// when the census denies serving.
    pub fn permits_serving_branch(&self) -> (r: bool)
        ensures
            r == !(*self is NotServing),
    {
        match self {
            Self::NotServing { .. } => false,
            _ => true,
        }
    }
}

/// The serving freshness label and condition for a reading whose generation
/// is sealed.
pub open spec fn serving_freshness(f: CodeIndexWorktreeFreshnessV1) -> (Seq<char>, Option<
    Seq<char>,
>) {
    match f.staleness_state {
        None => ("unknown"@, None),
        Some(s) => if s@ == "fresh"@ {
            ("current"@, None)
        } else if s@ == "verifying"@ {
            ("last_complete_stale"@, Some("source_verification"@))
        } else if f.rebuild_in_flight {
            ("last_complete_stale"@, Some("rebuilding"@))
        } else {
            ("last_complete_stale"@, Some("stalled"@))
        },
    }
}

pub open spec fn optional_static(text: Option<&'static str>) -> Option<Seq<char>> {
    match text {
        Some(t) => Some(t@),
        None => None,
    }
}

/// Whether retrieval can serve a worktree: serving exactly when a sealed
/// complete generation exists, with its freshness and ages.
/// The retrieval serving answer for a worktree reading: not serving while no
/// complete generation is sealed (rebuilding), otherwise serving with the
/// reading's freshness and the ages of its seated generation and last
/// reconcile.
pub open spec fn serving_answer_for(
    r: CodeIndexRetrievalServingV1,
    freshness: CodeIndexWorktreeFreshnessV1,
    now_micros: i64,
) -> bool {
    if freshness.latest_generation_id is None {
        r == (CodeIndexRetrievalServingV1::NotServing { reason: "generation_rebuilding" })
    } else {
        r matches CodeIndexRetrievalServingV1::Serving {
            freshness: label,
            condition,
            seated_generation_age_seconds,
            last_reconcile_age_seconds,
        } && (label@, optional_static(condition)) == serving_freshness(freshness)
            && seated_generation_age_seconds == age_seconds_spec(
            freshness.sealed_at_micros,
            now_micros,
        ) && last_reconcile_age_seconds == age_seconds_spec(
            freshness.last_reconcile_micros,
            now_micros,
        )
    }
}

pub fn retrieval_serving_for(freshness: &CodeIndexWorktreeFreshnessV1, now_micros: i64) -> (r:
    CodeIndexRetrievalServingV1)
    ensures
        serving_answer_for(r, *freshness, now_micros),
{
    if freshness.latest_generation_id.is_some() {
        let (label, condition): (&'static str, Option<&'static str>) =
            match &freshness.staleness_state {
            None => ("unknown", None),
            Some(s) => {
                if str_eq(s.as_str(), "fresh") {
                    ("current", None)
                } else if str_eq(s.as_str(), "verifying") {
                    ("last_complete_stale", Some("source_verification"))
                } else if freshness.rebuild_in_flight {
                    ("last_complete_stale", Some("rebuilding"))
                } else {
                    ("last_complete_stale", Some("stalled"))
                }
            },
        };
        CodeIndexRetrievalServingV1::Serving {
            freshness: label,
            condition,
            seated_generation_age_seconds: age_seconds(freshness.sealed_at_micros, now_micros),
            last_reconcile_age_seconds: age_seconds(freshness.last_reconcile_micros, now_micros),
        }
    } else {
        CodeIndexRetrievalServingV1::NotServing { reason: "generation_rebuilding" }
    }
}

/// How the status answer reports code-index freshness.
#[derive(Clone, Debug, PartialEq, Eq)]
pub enum CodeIndexFreshnessStatusV1 {
    /// The first worktree's reading, with its status label and warning.
    Observed { status: &'static str, warning: Option<String> },
    /// No reading could be taken, for the given reason.
    Unavailable { reason: &'static str },
}

/// The status answer's code-index section: the freshness report and the
/// retrieval serving state.
#[derive(Clone, Debug, PartialEq, Eq)]
pub struct CodeIndexStatusReadV1 {
    pub freshness: CodeIndexFreshnessStatusV1,
    pub serving: CodeIndexRetrievalServingV1,
}

/// Reads the code-index section of a status answer from the scheduler's
/// freshness payload, or from its absence.
pub fn code_index_status_read(payload: Option<&CodeIndexFreshnessPayloadV1>, now_micros: i64) -> (r:
    CodeIndexStatusReadV1)
    ensures
        payload is None ==> r == (CodeIndexStatusReadV1 {
            freshness: CodeIndexFreshnessStatusV1::Unavailable {
                reason: "code_index_scheduler_authority_not_attached",
            },
            serving: CodeIndexRetrievalServingV1::AuthorityUnattached,
        }),
        payload is Some && payload->0.worktrees@.len() == 0 ==> r == (CodeIndexStatusReadV1 {
            freshness: CodeIndexFreshnessStatusV1::Unavailable {
                reason: "code_index_scheduler_not_mounted",
            },
            serving: CodeIndexRetrievalServingV1::NotServing {
                reason: "code_index_scheduler_not_mounted",
            },
        }),
        payload is Some && payload->0.worktrees@.len() > 0 ==> (r.freshness matches CodeIndexFreshnessStatusV1::Observed {
            status,
            warning,
        } && status@ == freshness_status_label(payload->0.worktrees@[0]) && match warning {
            Some(w) => freshness_warning(payload->0.worktrees@[0]) == Some(w@),
            None => freshness_warning(payload->0.worktrees@[0]) is None,
        }),
        payload is Some && payload->0.worktrees@.len() > 0 ==> serving_answer_for(
            r.serving,
            payload->0.worktrees@[0],
            now_micros,
        ),
{
    match payload {
        None => CodeIndexStatusReadV1 {
            freshness: CodeIndexFreshnessStatusV1::Unavailable {
                reason: "code_index_scheduler_authority_not_attached",
            },
            serving: CodeIndexRetrievalServingV1::AuthorityUnattached,
        },
        Some(p) => {
            if p.worktrees.len() == 0 {
                CodeIndexStatusReadV1 {
                    freshness: CodeIndexFreshnessStatusV1::Unavailable {
                        reason: "code_index_scheduler_not_mounted",
                    },
                    serving: CodeIndexRetrievalServingV1::NotServing {
                        reason: "code_index_scheduler_not_mounted",
                    },
                }
            } else {
                let first = &p.worktrees[0];
                let (status, warning) = code_index_freshness_projection(first);
                CodeIndexStatusReadV1 {
                    freshness: CodeIndexFreshnessStatusV1::Observed { status, warning },
                    serving: retrieval_serving_for(first, now_micros),
                }
            }
        },
    }
}

/// The ready source a serving branch is reconciled with.
#[derive(Clone, Debug, PartialEq, Eq)]
pub struct ReadyServingSourceV1 {
    pub reference: String,
    pub revision: Option<String>,
    pub current_source_verified: bool,
}

/// The first worktree's ready serving source: present only when a generation
/// is sealed, the code graph is ready to serve, and the source reference is
/// known.
pub fn ready_serving_source(payload: Option<&CodeIndexFreshnessPayloadV1>) -> (r: Option<
    ReadyServingSourceV1,
>)
    ensures
        r is Some <==> (payload is Some && payload->0.worktrees@.len() > 0
            && payload->0.worktrees@[0].latest_generation_id is Some
            && payload->0.worktrees@[0].code_graph_serving == Some(
            CodeGraphServingReadinessV1::Ready,
        ) && payload->0.worktrees@[0].source_reference is Some),
        r matches Some(source) ==> (source.reference@
            == payload->0.worktrees@[0].source_reference->0@ && match source.revision {
            Some(rev) => payload->0.worktrees@[0].source_revision is Some
                && payload->0.worktrees@[0].source_revision->0@ == rev@,
            None => payload->0.worktrees@[0].source_revision is None,
        } && source.current_source_verified == (payload->0.worktrees@[0].coverage@
            == "complete"@ && staleness_is(payload->0.worktrees@[0], "fresh"@))),
{
    let p = match payload {
        Some(p) => p,
        None => return None,
    };
    if p.worktrees.len() == 0 {
        return None;
    }
    let freshness = &p.worktrees[0];
    if freshness.latest_generation_id.is_none() {
        return None;
    }
    match freshness.code_graph_serving {
        Some(CodeGraphServingReadinessV1::Ready) => {},
        _ => return None,
    }
    let reference = match &freshness.source_reference {
        Some(reference) => reference.clone(),
        None => return None,
    };
    let revision = match &freshness.source_revision {
        Some(revision) => Some(revision.clone()),
        None => None,
    };
    Some(
        ReadyServingSourceV1 {
            reference,
            revision,
            current_source_verified: str_eq(freshness.coverage.as_str(), "complete")
                && staleness_equals(freshness, "fresh"),
        },
    )
}

/// Which optional sections a `tracedecay_status` answer carries.
#[derive(Clone, Copy, Debug, PartialEq, Eq, Structural)]
pub struct StatusSectionsV1 {
    pub admission_only: bool,
    pub include_branch_diagnostics: bool,
    pub include_storage_health: bool,
    pub include_session_ingest: bool,
    pub include_staleness: bool,
}

pub open spec fn flag_or(flag: Option<bool>, default: bool) -> bool {
    match flag {
        Some(b) => b,
        None => default,
    }
}

fn flag_value(flag: Option<bool>, default: bool) -> (r: bool)
    ensures
        r == flag_or(flag, default),
{
    match flag {
        Some(b) => b,
        None => default,
    }
}

/// The sections a status request asks for: admission only when asked, and
/// every diagnostic section unless turned off.
pub fn status_sections(
    admission_only: Option<bool>,
    include_branch_diagnostics: Option<bool>,
    include_storage_health: Option<bool>,
    include_session_ingest: Option<bool>,
    include_staleness: Option<bool>,
) -> (r: StatusSectionsV1)
    ensures
        r.admission_only == flag_or(admission_only, false),
        r.include_branch_diagnostics == flag_or(include_branch_diagnostics, true),
        r.include_storage_health == flag_or(include_storage_health, true),
        r.include_session_ingest == flag_or(include_session_ingest, true),
        r.include_staleness == flag_or(include_staleness, true),
{
    StatusSectionsV1 {
        admission_only: flag_value(admission_only, false),
        include_branch_diagnostics: flag_value(include_branch_diagnostics, true),
        include_storage_health: flag_value(include_storage_health, true),
        include_session_ingest: flag_value(include_session_ingest, true),
        include_staleness: flag_value(include_staleness, true),
    }
}

/// One tracked branch of a worktree.
#[derive(Clone, Debug, PartialEq, Eq)]
pub struct BranchEntryV1 {
    pub name: String,
    pub is_serving: bool,
    pub parent: Option<String>,
}

/// The branch diagnostics a status answer reports from.
#[derive(Clone, Debug, PartialEq, Eq)]
pub struct BranchDiagnosticsV1 {
    pub current_branch: Option<String>,
    pub open_active_branch: Option<String>,
    pub serving_branch: Option<String>,
    pub branches: Vec<BranchEntryV1>,
    pub branch_drifted: bool,
    pub branch_resolution: String,
    pub tracked_branch_count: u64,
    pub warnings: Vec<String>,
}

/// The branch fields a status answer carries.
#[derive(Clone, Debug, PartialEq, Eq)]
pub struct BranchStatusV1 {
    pub active_branch: Option<String>,
    pub current_branch: Option<String>,
    pub serving_branch: Option<String>,
    pub parent_branch: Option<String>,
    /// Whether the full branch diagnostics are included.
    pub full: bool,
    pub branch_drifted: bool,
    /// Present exactly when the branch drifted: git, indexed, and serving branch.
    pub branch_mismatch: Option<(Option<String>, Option<String>, Option<String>)>,
    pub warnings: Option<Vec<String>>,
}

pub open spec fn opt_view(text: Option<String>) -> Option<Seq<char>> {
    match text {
        Some(t) => Some(t@),
        None => None,
    }
}

fn copy_text(text: &Option<String>) -> (r: Option<String>)
    ensures
        opt_view(r) == opt_view(*text),
{
    match text {
        Some(t) => Some(t.clone()),
        None => None,
    }
}

/// The parent of the first serving branch that names one, when the first
/// serving branch has a parent.
pub open spec fn serving_parent(branches: Seq<BranchEntryV1>) -> Option<Seq<char>>
    decreases branches.len(),
{
    if branches.len() == 0 {
        None
    } else if branches[0].is_serving {
        opt_view(branches[0].parent)
    } else {
        serving_parent(branches.drop_first())
    }
}

fn first_serving_parent(branches: &Vec<BranchEntryV1>) -> (r: Option<String>)
    ensures
        opt_view(r) == serving_parent(branches@),
{
    let mut i: usize = 0;
    proof {
        assert(branches@.subrange(0, branches@.len() as int) =~= branches@);
    }
    while i < branches.len()
        invariant
            0 <= i <= branches.len(),
            serving_parent(branches@) == serving_parent(branches@.subrange(i as int, branches@.len() as int)),
        decreases branches.len() - i,
    {
        proof {
            assert(branches@.subrange(i as int, branches@.len() as int).drop_first()
                =~= branches@.subrange(i + 1, branches@.len() as int));
        }
        if branches[i].is_serving {
            return copy_text(&branches[i].parent);
        }
        i = i + 1;
    }
    None
}

/// The branch fields of a status answer. The serving branch is named only
/// where the serving census permits it; the full view adds the live branch,
/// the serving branch's parent, drift, and warnings.
pub fn branch_status(
    diagnostics: &BranchDiagnosticsV1,
    serving: &CodeIndexRetrievalServingV1,
    full: bool,
) -> (r: BranchStatusV1)
    ensures
        opt_view(r.active_branch) == opt_view(diagnostics.open_active_branch),
        opt_view(r.serving_branch) == if serving is NotServing {
            None
        } else {
            opt_view(diagnostics.serving_branch)
        },
        r.full == full,
        full ==> opt_view(r.current_branch) == opt_view(diagnostics.current_branch),
        full ==> opt_view(r.parent_branch) == serving_parent(diagnostics.branches@),
        r.branch_drifted == diagnostics.branch_drifted,
        full ==> (r.branch_mismatch is Some <==> diagnostics.branch_drifted),
        r.branch_mismatch matches Some((git, indexed, serving_named)) ==> opt_view(git)
            == opt_view(diagnostics.current_branch) && opt_view(indexed) == opt_view(
            diagnostics.open_active_branch,
        ) && opt_view(serving_named) == opt_view(diagnostics.serving_branch),
        full ==> (r.warnings is Some <==> diagnostics.warnings@.len() > 0),
        r.warnings matches Some(w) ==> w@ == diagnostics.warnings@,
        !full ==> r.current_branch is None && r.parent_branch is None && r.branch_mismatch is None
            && r.warnings is None,
{
    let active_branch = copy_text(&diagnostics.open_active_branch);
    let serving_branch = if serving.permits_serving_branch() {
        copy_text(&diagnostics.serving_branch)
    } else {
        None
    };
    if !full {
        return BranchStatusV1 {
            active_branch,
            current_branch: None,
            serving_branch,
            parent_branch: None,
            full: false,
            branch_drifted: diagnostics.branch_drifted,
            branch_mismatch: None,
            warnings: None,
        };
    }
    let branch_mismatch = if diagnostics.branch_drifted {
        Some(
            (
                copy_text(&diagnostics.current_branch),
                copy_text(&diagnostics.open_active_branch),
                copy_text(&diagnostics.serving_branch),
            ),
        )
    } else {
        None
    };
    let warnings = if diagnostics.warnings.len() > 0 {
        Some(diagnostics.warnings.clone())
    } else {
        None
    };
    BranchStatusV1 {
        active_branch,
        current_branch: copy_text(&diagnostics.current_branch),
        serving_branch,
        parent_branch: first_serving_parent(&diagnostics.branches),
        full: true,
        branch_drifted: diagnostics.branch_drifted,
        branch_mismatch,
        warnings,
    }
}

/// Which optional sections a `tracedecay_runtime` answer carries.
#[derive(Clone, Copy, Debug, PartialEq, Eq, Structural)]
pub struct RuntimeReportSectionsV1 {
    pub authority_audit: bool,
    pub session_temporal_health: bool,
    pub session_ingest_health: bool,
    pub doctor_report: bool,
}

/// Session temporal health rides along with the authority audit, or is asked
/// for on its own; every section is off unless asked for.
pub fn runtime_report_sections(
    authority_audit: Option<bool>,
    session_temporal_health: Option<bool>,
    session_ingest_health: Option<bool>,
    doctor_report: Option<bool>,
) -> (r: RuntimeReportSectionsV1)
    ensures
        r.authority_audit == flag_or(authority_audit, false),
        r.session_temporal_health == (flag_or(authority_audit, false) || flag_or(
            session_temporal_health,
            false,
        )),
        r.session_ingest_health == flag_or(session_ingest_health, false),
        r.doctor_report == flag_or(doctor_report, false),
{
    let audit = flag_value(authority_audit, false);
    RuntimeReportSectionsV1 {
        authority_audit: audit,
        session_temporal_health: audit || flag_value(session_temporal_health, false),
        session_ingest_health: flag_value(session_ingest_health, false),
        doctor_report: flag_value(doctor_report, false),
    }
}

/// The observation-authority audit as the runtime answer reports it:
/// whether it passed (unknown when it could not run), a typed reason, and
/// the observed detail.
#[derive(Clone, Debug, PartialEq, Eq)]
pub struct AuthorityAuditReadV1 {
    pub ok: Option<bool>,
    pub reason: Option<&'static str>,
    pub error: Option<String>,
}

/// Reads the audit outcome: `None` when no registry is attached, otherwise
/// the audit's result (its failure carrying the error's text).
pub fn authority_audit_read(audit: Option<Result<(), String>>) -> (r: AuthorityAuditReadV1)
    ensures
        audit is None ==> r.ok is None && optional_static(r.reason) == Some(
            "authority_store_unavailable"@,
        ) && opt_view(r.error) == Some("authoritative global registry is unavailable"@),
        audit == Some(Ok::<(), String>(())) ==> r.ok == Some(true) && r.reason is None
            && r.error is None,
        audit matches Some(Err(message)) ==> r.ok == Some(false) && optional_static(r.reason)
            == Some("authority_invariant_failed"@) && opt_view(r.error) == Some(message@),
{
    match audit {
        None => AuthorityAuditReadV1 {
            ok: None,
            reason: Some("authority_store_unavailable"),
            error: Some(String::from_str("authoritative global registry is unavailable")),
        },
        Some(Ok(())) => AuthorityAuditReadV1 { ok: Some(true), reason: None, error: None },
        Some(Err(message)) => AuthorityAuditReadV1 {
            ok: Some(false),
            reason: Some("authority_invariant_failed"),
            error: Some(message),
        },
    }
}

/// Whether the daemon's Doctor report reader answered, failed, or is not
/// attached to this server.
#[derive(Clone, Copy, Debug, PartialEq, Eq, Structural)]
pub enum DoctorReportAttachmentV1 {
    Read,
    ReadFailed,
    NotAttached,
}

/// The kind tag of the runtime answer's Doctor report.
pub fn doctor_report_kind(attachment: DoctorReportAttachmentV1) -> (r: &'static str)
    ensures
        r@ == match attachment {
            DoctorReportAttachmentV1::Read => "observed"@,
            DoctorReportAttachmentV1::ReadFailed => "unknown"@,
            DoctorReportAttachmentV1::NotAttached => "unsupported"@,
        },
{
    match attachment {
        DoctorReportAttachmentV1::Read => "observed",
        DoctorReportAttachmentV1::ReadFailed => "unknown",
        DoctorReportAttachmentV1::NotAttached => "unsupported",
    }
}

/// How a session temporal health probe ended.
#[derive(Clone, Copy, Debug, PartialEq, Eq, Structural)]
pub enum SessionTemporalProbeV1 {
    /// The probe answered and its health serialized.
    Answered,
    /// The probe answered but its health could not be serialized.
    SerializationFailed,
    /// The probe exceeded its budget.
    TimedOut,
    /// No project session store is attached.
    StoreUnattached,
}

/// The status and message reported in place of a health the probe could not
/// deliver; `None` when the probe's own answer is reported.
pub fn session_temporal_fallback(probe: SessionTemporalProbeV1) -> (r: Option<
    (&'static str, Option<&'static str>),
>)
    ensures
        probe == SessionTemporalProbeV1::Answered ==> r is None,
        probe == SessionTemporalProbeV1::SerializationFailed ==> (r matches Some((status, message))
            && status@ == "unavailable"@ && optional_static(message) == Some(
            "session temporal health serialization failed"@,
        )),
        probe == SessionTemporalProbeV1::TimedOut ==> (r matches Some((status, message))
            && status@ == "timed_out"@ && optional_static(message) == Some(
            "session temporal health exceeded deadline"@,
        )),
        probe == SessionTemporalProbeV1::StoreUnattached ==> (r matches Some((status, message))
            && status@ == "unavailable"@ && message is None),
{
    match probe {
        SessionTemporalProbeV1::Answered => None,
        SessionTemporalProbeV1::SerializationFailed => Some(
            ("unavailable", Some("session temporal health serialization failed")),
        ),
        SessionTemporalProbeV1::TimedOut => Some(
            ("timed_out", Some("session temporal health exceeded deadline")),
        ),
        SessionTemporalProbeV1::StoreUnattached => Some(("unavailable", None)),
    }
}

/// Where a project's stores live.
#[derive(Clone, Copy, Debug, PartialEq, Eq, Structural)]
pub enum StorageMode {
    ProjectLocal,
    ProfileSharded,
}

/// What kind of project a store holds.
#[derive(Clone, Copy, Debug, PartialEq, Eq, Structural)]
pub enum StoreKind {
    CodeProject,
}

pub open spec fn storage_mode_text(mode: StorageMode) -> Seq<char> {
    match mode {
        StorageMode::ProjectLocal => "project_local"@,
        StorageMode::ProfileSharded => "profile_sharded"@,
    }
}

pub fn storage_mode_name(mode: &StorageMode) -> (r: &'static str)
    ensures
        r@ == storage_mode_text(*mode),
{
    match mode {
        StorageMode::ProjectLocal => "project_local",
        StorageMode::ProfileSharded => "profile_sharded",
    }
}

pub fn store_kind_name(kind: &StoreKind) -> (r: &'static str)
    ensures
        r@ == "code_project"@,
{
    match kind {
        StoreKind::CodeProject => "code_project",
    }
}

/// How far one session provider's history sweep has got.
#[derive(Clone, Copy, Debug, PartialEq, Eq, Structural)]
pub enum SessionProviderCoverageStateV1 {
    Complete,
    Partial,
    Unavailable,
}

/// One provider's history-sweep coverage.
#[derive(Clone, Debug, PartialEq, Eq)]
pub struct SessionProviderCoverageV1 {
    pub provider: String,
    pub state: SessionProviderCoverageStateV1,
    pub deferred_units: u64,
}

/// Session-transcript ingest health across providers.
#[derive(Clone, Debug, Default, PartialEq, Eq)]
pub struct SessionIngestHealthV1 {
    pub observed_providers: Vec<String>,
    pub provider_coverage: Vec<SessionProviderCoverageV1>,
    pub max_transcript_pending_bytes: u64,
    pub pending_bytes: u64,
    pub pending_transcripts: u64,
}

/// The historical session catch-up a status answer reports.
#[derive(Clone, Debug, PartialEq, Eq)]
pub struct HistoricalCatchUpV1 {
    pub status: &'static str,
    pub coverage: &'static str,
    pub reason: &'static str,
    pub message: &'static str,
    /// Who owns the catch-up: always the daemon.
    pub authority: &'static str,
    /// The observed providers, as the ingest health lists them.
    pub providers: Vec<String>,
    /// Providers with coverage records that were never observed, in order.
    pub unobserved_providers: Vec<String>,
}

pub open spec fn observed(ingest: SessionIngestHealthV1, provider: Seq<char>) -> bool {
    exists|i: int|
        0 <= i < ingest.observed_providers@.len() && #[trigger] ingest.observed_providers@[i]@
            == provider
}

pub open spec fn coverage_complete_for(ingest: SessionIngestHealthV1, provider: Seq<char>) -> bool {
    exists|i: int|
        0 <= i < ingest.provider_coverage@.len() && #[trigger] ingest.provider_coverage@[i].provider@
            == provider && ingest.provider_coverage@[i].state
            == SessionProviderCoverageStateV1::Complete
}

/// Some provider's sweep is incomplete: a coverage record is not complete, or
/// an observed provider that writes typed history coverage has no complete
/// record.
pub open spec fn coverage_incomplete(
    ingest: SessionIngestHealthV1,
    typed_history_providers: Seq<String>,
) -> bool {
    (exists|i: int|
        0 <= i < ingest.provider_coverage@.len() && #[trigger] ingest.provider_coverage@[i].state
            != SessionProviderCoverageStateV1::Complete) || (exists|i: int|
        0 <= i < ingest.observed_providers@.len() && text_views(typed_history_providers).contains(
            #[trigger] ingest.observed_providers@[i]@,
        ) && !coverage_complete_for(ingest, ingest.observed_providers@[i]@))
}

/// Neither a history row nor any available provider frontier is observable.
pub open spec fn sources_unavailable(ingest: SessionIngestHealthV1) -> bool {
    ingest.observed_providers@.len() == 0 && !(exists|i: int|
        0 <= i < ingest.provider_coverage@.len() && #[trigger] ingest.provider_coverage@[i].state
            != SessionProviderCoverageStateV1::Unavailable)
}

/// The status, coverage, reason, and message of a catch-up reading.
pub open spec fn catch_up_labels(unavailable: bool, warming: bool, incomplete: bool) -> (
    Seq<char>,
    Seq<char>,
    Seq<char>,
    Seq<char>,
) {
    if unavailable {
        (
            "unavailable"@,
            "partial"@,
            "historical_sources_unobserved"@,
            "No durable historical source rows or provider frontiers are currently observable."@,
        )
    } else if warming {
        (
            "warming"@,
            "partial"@,
            "historical_transcript_backlog"@,
            "Historical session recall is partially available while the daemon continues bounded background catch-up."@,
        )
    } else if incomplete {
        (
            "warming"@,
            "partial"@,
            "historical_provider_coverage_incomplete"@,
            "Historical session recall is partially available while the daemon continues bounded background catch-up."@,
        )
    } else {
        (
            "current"@,
            "complete"@,
            "historical_catch_up_current"@,
            "Historical session recall catch-up is current."@,
        )
    }
}

/// A provider named by one of the first `n` coverage records that was never
/// observed.
pub open spec fn unobserved_within(ingest: SessionIngestHealthV1, n: int, t: Seq<char>) -> bool {
    (exists|j: int| 0 <= j < n && #[trigger] ingest.provider_coverage@[j].provider@ == t)
        && !observed(ingest, t)
}

proof fn lemma_unobserved_within_step(ingest: SessionIngestHealthV1, n: int, t: Seq<char>)
    requires
        0 <= n < ingest.provider_coverage@.len(),
    ensures
        unobserved_within(ingest, n + 1, t) <==> (unobserved_within(ingest, n, t) || (t
            == ingest.provider_coverage@[n].provider@ && !observed(ingest, t))),
{
    if exists|j: int| 0 <= j < n + 1 && #[trigger] ingest.provider_coverage@[j].provider@ == t {
        let j = choose|j: int|
            0 <= j < n + 1 && #[trigger] ingest.provider_coverage@[j].provider@ == t;
        if j < n {
            assert(0 <= j < n && ingest.provider_coverage@[j].provider@ == t);
        }
    }
    if exists|j: int| 0 <= j < n && #[trigger] ingest.provider_coverage@[j].provider@ == t {
        let j = choose|j: int| 0 <= j < n && #[trigger] ingest.provider_coverage@[j].provider@ == t;
        assert(0 <= j < n + 1 && ingest.provider_coverage@[j].provider@ == t);
    }
    if t == ingest.provider_coverage@[n].provider@ {
        assert(0 <= n < n + 1 && ingest.provider_coverage@[n].provider@ == t);
    }
}

fn text_in(list: &Vec<String>, text: &str) -> (r: bool)
    ensures
        r == text_views(list@).contains(text@),
{
    let mut i: usize = 0;
    while i < list.len()
        invariant
            0 <= i <= list.len(),
            forall|j: int| 0 <= j < i ==> list@[j]@ != text@,
        decreases list.len() - i,
    {
        if str_eq(list[i].as_str(), text) {
            proof {
                assert(text_views(list@)[i as int] == text@);
            }
            return true;
        }
        i = i + 1;
    }
    proof {
        if text_views(list@).contains(text@) {
            let k = choose|k: int| 0 <= k < list@.len() && text_views(list@)[k] == text@;
            assert(list@[k]@ == text@);
        }
    }
    false
}

fn has_complete_coverage(ingest: &SessionIngestHealthV1, provider: &str) -> (r: bool)
    ensures
        r == coverage_complete_for(*ingest, provider@),
{
    let mut i: usize = 0;
    while i < ingest.provider_coverage.len()
        invariant
            0 <= i <= ingest.provider_coverage@.len(),
            forall|j: int|
                0 <= j < i ==> !(#[trigger] ingest.provider_coverage@[j].provider@ == provider@
                    && ingest.provider_coverage@[j].state
                    == SessionProviderCoverageStateV1::Complete),
        decreases ingest.provider_coverage.len() - i,
    {
        let c = &ingest.provider_coverage[i];
        if c.state == SessionProviderCoverageStateV1::Complete && str_eq(c.provider.as_str(), provider) {
            return true;
        }
        i = i + 1;
    }
    false
}

/// Reports daemon-owned historical warming: unavailable when nothing is
/// observable, warming while the largest transcript backlog exceeds the
/// catch-up threshold or a provider sweep is incomplete, current otherwise.
/// Unobserved providers are the covered ones never observed, in text order.
pub fn historical_session_catch_up_state(
    ingest: &SessionIngestHealthV1,
    warning_threshold_bytes: u64,
    typed_history_providers: &Vec<String>,
) -> (r: HistoricalCatchUpV1)
    ensures
        (r.status@, r.coverage@, r.reason@, r.message@) == catch_up_labels(
            sources_unavailable(*ingest),
            ingest.max_transcript_pending_bytes > warning_threshold_bytes,
            coverage_incomplete(*ingest, typed_history_providers@),
        ),
        r.authority@ == "daemon"@,
        r.providers@ == ingest.observed_providers@,
        strictly_sorted_texts(r.unobserved_providers@),
        forall|t: Seq<char>|
            text_views(r.unobserved_providers@).contains(t) <==> unobserved_within(
                *ingest,
                ingest.provider_coverage@.len() as int,
                t,
            ),
{
    let warming = ingest.max_transcript_pending_bytes > warning_threshold_bytes;
    let mut any_incomplete_record = false;
    let mut any_available = false;
    let mut unobserved: Vec<String> = Vec::new();
    let mut i: usize = 0;
    while i < ingest.provider_coverage.len()
        invariant
            0 <= i <= ingest.provider_coverage@.len(),
            any_incomplete_record == exists|j: int|
                0 <= j < i && #[trigger] ingest.provider_coverage@[j].state
                    != SessionProviderCoverageStateV1::Complete,
            any_available == exists|j: int|
                0 <= j < i && #[trigger] ingest.provider_coverage@[j].state
                    != SessionProviderCoverageStateV1::Unavailable,
            strictly_sorted_texts(unobserved@),
            forall|t: Seq<char>|
                text_views(unobserved@).contains(t) <==> unobserved_within(*ingest, i as int, t),
        decreases ingest.provider_coverage.len() - i,
    {
        let c = &ingest.provider_coverage[i];
        if c.state != SessionProviderCoverageStateV1::Complete {
            any_incomplete_record = true;
        }
        if c.state != SessionProviderCoverageStateV1::Unavailable {
            any_available = true;
        }
        let seen = text_in(&ingest.observed_providers, c.provider.as_str());
        let ghost before = unobserved@;
        proof {
            assert(seen == observed(*ingest, c.provider@)) by {
                if seen {
                    let k = choose|k: int|
                        0 <= k < ingest.observed_providers@.len() && text_views(
                            ingest.observed_providers@,
                        )[k] == c.provider@;
                    assert(ingest.observed_providers@[k]@ == c.provider@);
                }
                if observed(*ingest, c.provider@) {
                    let k = choose|k: int|
                        0 <= k < ingest.observed_providers@.len()
                            && #[trigger] ingest.observed_providers@[k]@ == c.provider@;
                    assert(text_views(ingest.observed_providers@)[k] == c.provider@);
                }
            }
        }
        if !seen {
            insert_sorted_text(&mut unobserved, c.provider.clone());
        }
        proof {
            assert forall|t: Seq<char>|
                text_views(unobserved@).contains(t) <==> unobserved_within(
                    *ingest,
                    i + 1,
                    t,
                ) by {
                lemma_unobserved_within_step(*ingest, i as int, t);
                if !seen {
                    assert(text_views(unobserved@).to_set().contains(t) <==> text_views(
                        before,
                    ).to_set().insert(c.provider@).contains(t));
                }
            }
        }
        i = i + 1;
    }

    let mut untyped_gap = false;
    let mut k: usize = 0;
    while k < ingest.observed_providers.len()
        invariant
            0 <= k <= ingest.observed_providers@.len(),
            untyped_gap == exists|j: int|
                0 <= j < k && text_views(typed_history_providers@).contains(
                    #[trigger] ingest.observed_providers@[j]@,
                ) && !coverage_complete_for(*ingest, ingest.observed_providers@[j]@),
        decreases ingest.observed_providers.len() - k,
    {
        let provider = ingest.observed_providers[k].as_str();
        if text_in(typed_history_providers, provider) && !has_complete_coverage(ingest, provider) {
            untyped_gap = true;
        }
        k = k + 1;
    }
    let incomplete = any_incomplete_record || untyped_gap;
    let unavailable = ingest.observed_providers.len() == 0 && !any_available;
    let (status, coverage, reason, message) = if unavailable {
        (
            "unavailable",
            "partial",
            "historical_sources_unobserved",
            "No durable historical source rows or provider frontiers are currently observable.",
        )
    } else if warming {
        (
            "warming",
            "partial",
            "historical_transcript_backlog",
            "Historical session recall is partially available while the daemon continues bounded background catch-up.",
        )
    } else if incomplete {
        (
            "warming",
            "partial",
            "historical_provider_coverage_incomplete",
            "Historical session recall is partially available while the daemon continues bounded background catch-up.",
        )
    } else {
        (
            "current",
            "complete",
            "historical_catch_up_current",
            "Historical session recall catch-up is current.",
        )
    };
    HistoricalCatchUpV1 {
        status,
        coverage,
        reason,
        message,
        authority: "daemon",
        providers: ingest.observed_providers.clone(),
        unobserved_providers: unobserved,
    }
}

} // verus!
