//! Doctor reads: how the daemon's live signals map into the Doctor kernel's
//! read vocabulary. A signal that cannot be consulted maps to a typed
//! `Absent`/`Unknown`/`Unsupported` read, never to a fabricated healthy one.

use vstd::prelude::*;

use crate::convergence::SchemaConvergenceFindingV1;
use crate::convergence_ledger::{ConvergenceStatusView, RegisteredSchemaConvergenceStatus};

verus! {

/// How much of a family's evidence a read covers.
#[derive(Clone, Copy, Debug, PartialEq, Eq, Structural)]
pub enum DoctorCoverageCompletenessV1 {
    Complete,
    Partial,
    Unknown,
}

// === Configuration authority ================================================

#[derive(Clone, Copy, Debug, PartialEq, Eq, Structural)]
pub enum ConfigurationDriftV1 {
    InSync,
}

#[derive(Clone, Copy, Debug, PartialEq, Eq, Structural)]
pub enum ConfigurationAuthorityReadV1 {
    Resolved { drift: ConfigurationDriftV1, coverage: DoctorCoverageCompletenessV1 },
    Absent,
}

/// A pinned configuration resolves in sync with complete coverage; a cold
/// pin (the fail-closed accessor's error) reads as absent.
pub fn configuration_read_from_pin<T, E>(resolved: &Result<T, E>) -> (r:
    ConfigurationAuthorityReadV1)
    ensures
        r == (if resolved is Ok {
            ConfigurationAuthorityReadV1::Resolved {
                drift: ConfigurationDriftV1::InSync,
                coverage: DoctorCoverageCompletenessV1::Complete,
            }
        } else {
            ConfigurationAuthorityReadV1::Absent
        }),
{
    match resolved {
        Ok(_) => ConfigurationAuthorityReadV1::Resolved {
            drift: ConfigurationDriftV1::InSync,
            coverage: DoctorCoverageCompletenessV1::Complete,
        },
        Err(_) => ConfigurationAuthorityReadV1::Absent,
    }
}

// === Host integration conformance ===========================================

/// What the host-bundle inspection found for one installed component.
#[derive(Clone, Copy, Debug, PartialEq, Eq, Structural)]
pub enum HostBundleComponentDoctorStateV1 {
    Current,
    Repairable,
    Missing,
    Drifted,
    OrphanedRegistration,
    ActivationDeferred,
    Corrupt,
    OwnershipConflict,
}

/// The parts of a host-bundle inspection report the conformance read uses.
#[derive(Clone, Debug, PartialEq, Eq)]
pub struct HostBundleDoctorSummaryV1 {
    /// How many native edit-stop conformance entries the inspection produced.
    pub native_edit_stop_conformance_entries: usize,
    pub component_states: Vec<HostBundleComponentDoctorStateV1>,
}

#[derive(Clone, Copy, Debug, PartialEq, Eq, Structural)]
pub enum HostConformanceV1 {
    Conformant,
    Drifted,
    ProtocolDrift,
}

#[derive(Clone, Copy, Debug, PartialEq, Eq, Structural)]
pub enum HostIntegrationReadV1 {
    Unsupported,
    Absent,
    Unknown,
    Observed { conformance: HostConformanceV1, coverage: DoctorCoverageCompletenessV1 },
}

/// Ownership is broken: the component cannot be converged by reinstalling.
pub open spec fn breaks_protocol(state: HostBundleComponentDoctorStateV1) -> bool {
    state == HostBundleComponentDoctorStateV1::Corrupt || state
        == HostBundleComponentDoctorStateV1::OwnershipConflict
}

/// Repairable drift: ownership is intact and a reinstall or the host's own
/// activation converges the component.
pub open spec fn repairable_drift(state: HostBundleComponentDoctorStateV1) -> bool {
    state == HostBundleComponentDoctorStateV1::Repairable || state
        == HostBundleComponentDoctorStateV1::Missing || state
        == HostBundleComponentDoctorStateV1::Drifted || state
        == HostBundleComponentDoctorStateV1::OrphanedRegistration || state
        == HostBundleComponentDoctorStateV1::ActivationDeferred
}

pub open spec fn host_conformance(states: Seq<HostBundleComponentDoctorStateV1>) -> HostConformanceV1 {
    if exists|i: int| 0 <= i < states.len() && breaks_protocol(#[trigger] states[i]) {
        HostConformanceV1::ProtocolDrift
    } else if exists|i: int| 0 <= i < states.len() && repairable_drift(#[trigger] states[i]) {
        HostConformanceV1::Drifted
    } else {
        HostConformanceV1::Conformant
    }
}

fn any_component(states: &Vec<HostBundleComponentDoctorStateV1>, protocol: bool) -> (r: bool)
    ensures
        protocol ==> (r == exists|i: int|
            0 <= i < states@.len() && breaks_protocol(#[trigger] states@[i])),
        !protocol ==> (r == exists|i: int|
            0 <= i < states@.len() && repairable_drift(#[trigger] states@[i])),
{
    let mut i: usize = 0;
    while i < states.len()
        invariant
            0 <= i <= states@.len(),
            protocol ==> forall|j: int| 0 <= j < i ==> !breaks_protocol(#[trigger] states@[j]),
            !protocol ==> forall|j: int| 0 <= j < i ==> !repairable_drift(#[trigger] states@[j]),
        decreases states.len() - i,
    {
        let s = states[i];
        let hit = if protocol {
            match s {
                HostBundleComponentDoctorStateV1::Corrupt
                | HostBundleComponentDoctorStateV1::OwnershipConflict => true,
                _ => false,
            }
        } else {
            match s {
                HostBundleComponentDoctorStateV1::Repairable
                | HostBundleComponentDoctorStateV1::Missing
                | HostBundleComponentDoctorStateV1::Drifted
                | HostBundleComponentDoctorStateV1::OrphanedRegistration
                | HostBundleComponentDoctorStateV1::ActivationDeferred => true,
                _ => false,
            }
        };
        if hit {
            return true;
        }
        i = i + 1;
    }
    false
}

/// A report without native edit-stop conformance is unsupported and one
/// without components absent; otherwise broken ownership is protocol drift,
/// repairable states are drift, and everything else is conformant.
pub fn host_integration_read_from_report(report: &HostBundleDoctorSummaryV1) -> (r:
    HostIntegrationReadV1)
    ensures
        r == (if report.native_edit_stop_conformance_entries == 0 {
            HostIntegrationReadV1::Unsupported
        } else if report.component_states@.len() == 0 {
            HostIntegrationReadV1::Absent
        } else {
            HostIntegrationReadV1::Observed {
                conformance: host_conformance(report.component_states@),
                coverage: DoctorCoverageCompletenessV1::Complete,
            }
        }),
{
    if report.native_edit_stop_conformance_entries == 0 {
        return HostIntegrationReadV1::Unsupported;
    }
    if report.component_states.len() == 0 {
        return HostIntegrationReadV1::Absent;
    }
    let conformance = if any_component(&report.component_states, true) {
        HostConformanceV1::ProtocolDrift
    } else if any_component(&report.component_states, false) {
        HostConformanceV1::Drifted
    } else {
        HostConformanceV1::Conformant
    };
    HostIntegrationReadV1::Observed { conformance, coverage: DoctorCoverageCompletenessV1::Complete }
}

// === Code-index mount =======================================================

#[derive(Clone, Copy, Debug, PartialEq, Eq, Structural)]
pub enum CodeIndexMountStateV1 {
    Unmounted,
    Mounted,
    Indexing,
}

#[derive(Clone, Debug, PartialEq, Eq)]
pub enum CodeIndexMountReadV1 {
    Observed { state: CodeIndexMountStateV1, coverage: DoctorCoverageCompletenessV1 },
    Parked { reason: String, coverage: DoctorCoverageCompletenessV1 },
}

/// The mount read of a worktree from what the scheduler registry reports:
/// unmounted, mounted once a complete generation is proven current, parked
/// (with `reason; remediation`) while convergence is parked, indexing
/// otherwise. Every read carries complete coverage.
pub fn code_index_mount_read(
    worktree_mounted: bool,
    latest_complete_ready: bool,
    parked: Option<(String, String)>,
) -> (r: CodeIndexMountReadV1)
    ensures
        !worktree_mounted ==> r == (CodeIndexMountReadV1::Observed {
            state: CodeIndexMountStateV1::Unmounted,
            coverage: DoctorCoverageCompletenessV1::Complete,
        }),
        worktree_mounted && latest_complete_ready ==> r == (CodeIndexMountReadV1::Observed {
            state: CodeIndexMountStateV1::Mounted,
            coverage: DoctorCoverageCompletenessV1::Complete,
        }),
        worktree_mounted && !latest_complete_ready ==> match parked {
            Some((reason, remediation)) => r matches CodeIndexMountReadV1::Parked {
                reason: text,
                coverage,
            } && text@ == reason@ + "; "@ + remediation@ && coverage
                == DoctorCoverageCompletenessV1::Complete,
            None => r == (CodeIndexMountReadV1::Observed {
                state: CodeIndexMountStateV1::Indexing,
                coverage: DoctorCoverageCompletenessV1::Complete,
            }),
        },
{
    if !worktree_mounted {
        return CodeIndexMountReadV1::Observed {
            state: CodeIndexMountStateV1::Unmounted,
            coverage: DoctorCoverageCompletenessV1::Complete,
        };
    }
    if latest_complete_ready {
        return CodeIndexMountReadV1::Observed {
            state: CodeIndexMountStateV1::Mounted,
            coverage: DoctorCoverageCompletenessV1::Complete,
        };
    }
    match parked {
        Some((reason, remediation)) => {
            let mut text = reason;
            text.append("; ");
            text.append(remediation.as_str());
            CodeIndexMountReadV1::Parked { reason: text, coverage: DoctorCoverageCompletenessV1::Complete }
        },
        None => CodeIndexMountReadV1::Observed {
            state: CodeIndexMountStateV1::Indexing,
            coverage: DoctorCoverageCompletenessV1::Complete,
        },
    }
}

// === Language server ========================================================

/// One project-active analyzer engine's state as the diagnostic broker sees it.
#[derive(Clone, Copy, Debug, PartialEq, Eq, Structural)]
pub enum EngineState {
    Starting,
    Ready,
    Refreshing,
    Disabled,
    Unavailable,
    Crashed,
}

#[derive(Clone, Copy, Debug, PartialEq, Eq, Structural)]
pub enum LanguageServerStateV1 {
    Ready,
    Available,
    Refreshing,
    Disabled,
    Unavailable,
    Crashed,
}

#[derive(Clone, Copy, Debug, PartialEq, Eq, Structural)]
pub enum LanguageServerReadV1 {
    Absent,
    Observed { state: LanguageServerStateV1, coverage: DoctorCoverageCompletenessV1 },
}

/// The worst engine state wins, in the order crashed, unavailable, disabled,
/// refreshing; all-ready is ready and any other mix is available.
pub open spec fn language_server_state(states: Seq<EngineState>) -> LanguageServerStateV1 {
    if states.contains(EngineState::Crashed) {
        LanguageServerStateV1::Crashed
    } else if states.contains(EngineState::Unavailable) {
        LanguageServerStateV1::Unavailable
    } else if states.contains(EngineState::Disabled) {
        LanguageServerStateV1::Disabled
    } else if states.contains(EngineState::Refreshing) {
        LanguageServerStateV1::Refreshing
    } else if forall|i: int| 0 <= i < states.len() ==> #[trigger] states[i] == EngineState::Ready {
        LanguageServerStateV1::Ready
    } else {
        LanguageServerStateV1::Available
    }
}

fn contains_engine_state(states: &Vec<EngineState>, wanted: EngineState) -> (r: bool)
    ensures
        r == states@.contains(wanted),
{
    let mut i: usize = 0;
    while i < states.len()
        invariant
            0 <= i <= states@.len(),
            forall|j: int| 0 <= j < i ==> states@[j] != wanted,
        decreases states.len() - i,
    {
        if states[i] == wanted {
            return true;
        }
        i = i + 1;
    }
    false
}

fn all_ready(states: &Vec<EngineState>) -> (r: bool)
    ensures
        r == forall|i: int| 0 <= i < states@.len() ==> #[trigger] states@[i] == EngineState::Ready,
{
    let mut i: usize = 0;
    while i < states.len()
        invariant
            0 <= i <= states@.len(),
            forall|j: int| 0 <= j < i ==> #[trigger] states@[j] == EngineState::Ready,
        decreases states.len() - i,
    {
        if states[i] != EngineState::Ready {
            return false;
        }
        i = i + 1;
    }
    true
}

/// Maps the broker's project-active engine states: none is absent, otherwise
/// the aggregated state with complete coverage.
pub fn language_server_read_from_engine_states(states: Vec<EngineState>) -> (r:
    LanguageServerReadV1)
    ensures
        r == (if states@.len() == 0 {
            LanguageServerReadV1::Absent
        } else {
            LanguageServerReadV1::Observed {
                state: language_server_state(states@),
                coverage: DoctorCoverageCompletenessV1::Complete,
            }
        }),
{
    if states.len() == 0 {
        return LanguageServerReadV1::Absent;
    }
    let state = if contains_engine_state(&states, EngineState::Crashed) {
        LanguageServerStateV1::Crashed
    } else if contains_engine_state(&states, EngineState::Unavailable) {
        LanguageServerStateV1::Unavailable
    } else if contains_engine_state(&states, EngineState::Disabled) {
        LanguageServerStateV1::Disabled
    } else if contains_engine_state(&states, EngineState::Refreshing) {
        LanguageServerStateV1::Refreshing
    } else if all_ready(&states) {
        LanguageServerStateV1::Ready
    } else {
        LanguageServerStateV1::Available
    };
    LanguageServerReadV1::Observed { state, coverage: DoctorCoverageCompletenessV1::Complete }
}

// === Observability ==========================================================

/// How completely the durable feedback observation read model covers its
/// producers.
#[derive(Clone, Copy, Debug, PartialEq, Eq, Structural)]
pub enum FeedbackCoverageV1 {
    Known,
    Stale,
    Partial,
    Sampled,
    Capped,
    Unknown,
}

/// The parts of the durable feedback observation read model a Doctor read uses.
#[derive(Clone, Debug, PartialEq, Eq)]
pub struct FeedbackObservationReadModelV1 {
    pub total_count: u64,
    pub eligible: u64,
    pub incomplete_boots: u64,
    pub producer_boot_id: Option<String>,
    pub observed_through_micros: Option<i64>,
    pub coverage: FeedbackCoverageV1,
}

#[derive(Clone, Copy, Debug, PartialEq, Eq, Structural)]
pub enum ObservabilityStateV1 {
    Current,
    Stale,
}

#[derive(Clone, Copy, Debug, PartialEq, Eq, Structural)]
pub enum ObservabilityReadV1 {
    Absent,
    Unknown,
    Observed {
        state: ObservabilityStateV1,
        total_count: u64,
        last_observed_at_micros: Option<i64>,
        coverage: DoctorCoverageCompletenessV1,
    },
}

/// The observation state and coverage a feedback coverage class reports.
pub open spec fn observability_grade(coverage: FeedbackCoverageV1) -> (
    ObservabilityStateV1,
    DoctorCoverageCompletenessV1,
) {
    match coverage {
        FeedbackCoverageV1::Known => (
            ObservabilityStateV1::Current,
            DoctorCoverageCompletenessV1::Complete,
        ),
        FeedbackCoverageV1::Stale => (
            ObservabilityStateV1::Stale,
            DoctorCoverageCompletenessV1::Partial,
        ),
        FeedbackCoverageV1::Partial | FeedbackCoverageV1::Sampled | FeedbackCoverageV1::Capped => (
            ObservabilityStateV1::Current,
            DoctorCoverageCompletenessV1::Partial,
        ),
        FeedbackCoverageV1::Unknown => (
            ObservabilityStateV1::Current,
            DoctorCoverageCompletenessV1::Unknown,
        ),
    }
}

/// Nothing was ever produced: no observation, no eligible denominator, no
/// incomplete boot, and no producer boot on the watermark.
pub open spec fn observation_model_empty(model: FeedbackObservationReadModelV1) -> bool {
    model.total_count == 0 && model.eligible == 0 && model.incomplete_boots == 0
        && model.producer_boot_id is None
}

/// An unreadable model is unknown and an empty one absent; otherwise the
/// model's count and watermark with the state and coverage of its coverage
/// class.
pub fn observability_read_from_model<E>(model: Result<FeedbackObservationReadModelV1, E>) -> (r:
    ObservabilityReadV1)
    ensures
        r == (match model {
            Err(_) => ObservabilityReadV1::Unknown,
            Ok(m) => if observation_model_empty(m) {
                ObservabilityReadV1::Absent
            } else {
                ObservabilityReadV1::Observed {
                    state: observability_grade(m.coverage).0,
                    total_count: m.total_count,
                    last_observed_at_micros: m.observed_through_micros,
                    coverage: observability_grade(m.coverage).1,
                }
            },
        }),
{
    match model {
        Ok(model) => {
            if model.total_count == 0 && model.eligible == 0 && model.incomplete_boots == 0
                && model.producer_boot_id.is_none() {
                return ObservabilityReadV1::Absent;
            }
            let (state, coverage) = match model.coverage {
                FeedbackCoverageV1::Known => (
                    ObservabilityStateV1::Current,
                    DoctorCoverageCompletenessV1::Complete,
                ),
                FeedbackCoverageV1::Stale => (
                    ObservabilityStateV1::Stale,
                    DoctorCoverageCompletenessV1::Partial,
                ),
                FeedbackCoverageV1::Partial
                | FeedbackCoverageV1::Sampled
                | FeedbackCoverageV1::Capped => (
                    ObservabilityStateV1::Current,
                    DoctorCoverageCompletenessV1::Partial,
                ),
                FeedbackCoverageV1::Unknown => (
                    ObservabilityStateV1::Current,
                    DoctorCoverageCompletenessV1::Unknown,
                ),
            };
            ObservabilityReadV1::Observed {
                state,
                total_count: model.total_count,
                last_observed_at_micros: model.observed_through_micros,
                coverage,
            }
        },
        Err(_) => ObservabilityReadV1::Unknown,
    }
}

// === Pending schema migrations ==============================================

/// The evidence state a storage finding carries.
#[derive(Clone, Copy, Debug, PartialEq, Eq, Structural)]
pub enum DoctorEvidenceStateV1 {
    Stale,
    Degraded,
}

/// The evidence one unconverged shard contributes to the storage family.
#[derive(Clone, Debug, PartialEq, Eq)]
pub struct PendingSchemaMigrationEvidenceV1 {
    pub shard: u64,
    pub state: DoctorEvidenceStateV1,
    pub detail: String,
    pub statement: &'static str,
}

pub struct PendingSchemaMigrationEvidenceView {
    pub shard: u64,
    pub state: DoctorEvidenceStateV1,
    pub detail: Seq<char>,
    pub statement: Seq<char>,
}

impl View for PendingSchemaMigrationEvidenceV1 {
    type V = PendingSchemaMigrationEvidenceView;

    open spec fn view(&self) -> PendingSchemaMigrationEvidenceView {
        PendingSchemaMigrationEvidenceView {
            shard: self.shard,
            state: self.state,
            detail: self.detail@,
            statement: self.statement@,
        }
    }
}

/// What a shard still behind its schema reports: queued and running
/// migrations are stale (the store stays readable), a stopped one is degraded
/// and carries the recorded failure.
pub open spec fn migration_evidence(shard: u64, status: ConvergenceStatusView) -> Option<
    PendingSchemaMigrationEvidenceView,
> {
    match status {
        ConvergenceStatusView::Pending => Some(
            PendingSchemaMigrationEvidenceView {
                shard,
                state: DoctorEvidenceStateV1::Stale,
                detail: "queued"@,
                statement: "schema migrations are queued and have not started"@,
            },
        ),
        ConvergenceStatusView::Running => Some(
            PendingSchemaMigrationEvidenceView {
                shard,
                state: DoctorEvidenceStateV1::Stale,
                detail: "running"@,
                statement: "schema migrations are running; the store stays served meanwhile"@,
            },
        ),
        ConvergenceStatusView::Degraded(message) => Some(
            PendingSchemaMigrationEvidenceView {
                shard,
                state: DoctorEvidenceStateV1::Degraded,
                detail: "stopped."@ + message,
                statement: "schema migrations stopped on a failure and left the store behind its schema"@,
            },
        ),
        ConvergenceStatusView::Complete => None,
    }
}

/// The evidence of each listed shard in order, converged shards skipped.
pub open spec fn migration_evidence_for(unconverged: Seq<(u64, ConvergenceStatusView)>) -> Seq<
    PendingSchemaMigrationEvidenceView,
>
    decreases unconverged.len(),
{
    if unconverged.len() == 0 {
        Seq::empty()
    } else {
        let earlier = migration_evidence_for(unconverged.drop_last());
        match migration_evidence(unconverged.last().0, unconverged.last().1) {
            Some(e) => earlier.push(e),
            None => earlier,
        }
    }
}

pub open spec fn shard_status_views(
    pairs: Seq<(u64, RegisteredSchemaConvergenceStatus)>,
) -> Seq<(u64, ConvergenceStatusView)> {
    pairs.map_values(|p: (u64, RegisteredSchemaConvergenceStatus)| (p.0, p.1@))
}

pub open spec fn evidence_views(e: Seq<PendingSchemaMigrationEvidenceV1>) -> Seq<
    PendingSchemaMigrationEvidenceView,
> {
    e.map_values(|x: PendingSchemaMigrationEvidenceV1| x@)
}

/// The storage evidence of the shards whose schema convergence has not
/// completed, one per shard in the order given.
pub fn pending_schema_migration_read(
    unconverged: &Vec<(u64, RegisteredSchemaConvergenceStatus)>,
) -> (r: Vec<PendingSchemaMigrationEvidenceV1>)
    ensures
        evidence_views(r@) == migration_evidence_for(shard_status_views(unconverged@)),
{
    let mut out: Vec<PendingSchemaMigrationEvidenceV1> = Vec::new();
    let mut i: usize = 0;
    while i < unconverged.len()
        invariant
            0 <= i <= unconverged@.len(),
            evidence_views(out@) == migration_evidence_for(
                shard_status_views(unconverged@).take(i as int),
            ),
        decreases unconverged.len() - i,
    {
        let ghost views = shard_status_views(unconverged@);
        proof {
            assert(views.take(i + 1).drop_last() =~= views.take(i as int));
        }
        let shard = unconverged[i].0;
        let evidence = match &unconverged[i].1 {
            RegisteredSchemaConvergenceStatus::Pending => Some(
                PendingSchemaMigrationEvidenceV1 {
                    shard,
                    state: DoctorEvidenceStateV1::Stale,
                    detail: String::from_str("queued"),
                    statement: "schema migrations are queued and have not started",
                },
            ),
            RegisteredSchemaConvergenceStatus::Running => Some(
                PendingSchemaMigrationEvidenceV1 {
                    shard,
                    state: DoctorEvidenceStateV1::Stale,
                    detail: String::from_str("running"),
                    statement: "schema migrations are running; the store stays served meanwhile",
                },
            ),
            RegisteredSchemaConvergenceStatus::Degraded { message } => {
                let mut detail = String::from_str("stopped.");
                detail.append(message.as_str());
                Some(
                    PendingSchemaMigrationEvidenceV1 {
                        shard,
                        state: DoctorEvidenceStateV1::Degraded,
                        detail,
                        statement: "schema migrations stopped on a failure and left the store behind its schema",
                    },
                )
            },
            RegisteredSchemaConvergenceStatus::Complete => None,
        };
        let ghost before = out@;
        match evidence {
            Some(e) => {
                out.push(e);
                proof {
                    assert(evidence_views(out@) =~= evidence_views(before).push(e@));
                }
            },
            None => {},
        }
        i = i + 1;
    }
    proof {
        assert(shard_status_views(unconverged@).take(unconverged@.len() as int)
            =~= shard_status_views(unconverged@));
    }
    out
}

/// The schema-convergence part of a Doctor report: the storage read and the
/// per-store findings it was drawn from.
pub struct SchemaConvergenceDoctorReadV1<Storage> {
    pub storage: Storage,
    pub findings: Vec<SchemaConvergenceFindingV1>,
}

// === Storage telemetry budgets ==============================================

/// Stores at most this large have their table growth previewed synchronously.
pub const MAX_SYNCHRONOUS_TABLE_GROWTH_STORE_BYTES: u64 = 67108864;

/// Entry ceiling for the synchronous code-index generation census.
pub const MAX_SYNCHRONOUS_GENERATION_CENSUS_ENTRIES: u64 = 4096;

/// What a store-size sample reported.
#[derive(Clone, Copy, Debug, PartialEq, Eq, Structural)]
pub enum StorageTelemetryReadV1 {
    Observed { total_bytes: u64 },
    Unknown,
}

/// Table growth is previewed only for an observed store within the budget.
pub fn permits_synchronous_table_growth(read: &StorageTelemetryReadV1) -> (r: bool)
    ensures
        r == (match *read {
            StorageTelemetryReadV1::Observed { total_bytes } => total_bytes
                <= MAX_SYNCHRONOUS_TABLE_GROWTH_STORE_BYTES,
            StorageTelemetryReadV1::Unknown => false,
        }),
{
    match read {
        StorageTelemetryReadV1::Observed { total_bytes } => *total_bytes
            <= MAX_SYNCHRONOUS_TABLE_GROWTH_STORE_BYTES,
        StorageTelemetryReadV1::Unknown => false,
    }
}

/// How many listed entries are not symbolic links (unreadable entries count
/// as nothing).
pub open spec fn non_link_count(entries: Seq<Option<bool>>) -> nat
    decreases entries.len(),
{
    if entries.len() == 0 {
        0
    } else {
        non_link_count(entries.drop_last()) + if entries.last() == Some(false) {
            1nat
        } else {
            0nat
        }
    }
}

proof fn lemma_non_link_count_prefix(entries: Seq<Option<bool>>, n: int)
    requires
        0 <= n <= entries.len(),
    ensures
        non_link_count(entries.take(n)) <= non_link_count(entries),
    decreases entries.len() - n,
{
    if n < entries.len() {
        lemma_non_link_count_prefix(entries, n + 1);
        assert(entries.take(n + 1).drop_last() =~= entries.take(n));
    } else {
        assert(entries.take(n) =~= entries);
    }
}

/// Whether the sealed-generation directory is small enough, in entries, for
/// a synchronous metadata census. `listing` holds one item per directory
/// entry, `Some(is_symlink)` when its type could be read, and is `None` when
/// the directory could not be listed. Links are not counted; byte size is not
/// consulted.
pub fn permits_synchronous_generation_census(listing: &Option<Vec<Option<bool>>>) -> (r: bool)
    ensures
        r == (match listing {
            None => false,
            Some(entries) => census_within_budget(entries@),
        }),
{
    match listing {
        None => false,
        Some(entries) => census_entries_within_budget(entries),
    }
}

/// Every entry's type was readable and the non-link entries fit the census
/// ceiling.
pub open spec fn census_within_budget(entries: Seq<Option<bool>>) -> bool {
    (forall|i: int| 0 <= i < entries.len() ==> #[trigger] entries[i] is Some) && non_link_count(
        entries,
    ) <= MAX_SYNCHRONOUS_GENERATION_CENSUS_ENTRIES
}

fn census_entries_within_budget(entries: &Vec<Option<bool>>) -> (r: bool)
    ensures
        r == census_within_budget(entries@),
{
    let mut observed: u64 = 0;
    let mut i: usize = 0;
    while i < entries.len()
        invariant
            0 <= i <= entries@.len(),
            observed == non_link_count(entries@.take(i as int)),
            observed <= MAX_SYNCHRONOUS_GENERATION_CENSUS_ENTRIES,
            forall|j: int| 0 <= j < i ==> #[trigger] entries@[j] is Some,
        decreases entries.len() - i,
    {
        proof {
            assert(entries@.take(i + 1).drop_last() =~= entries@.take(i as int));
        }
        proof {
            assert(entries@.take(i + 1).last() == entries@[i as int]);
        }
        match entries[i] {
            None => {
                proof {
                    assert(!(entries@[i as int] is Some));
                }
                return false;
            },
            Some(true) => {},
            Some(false) => {
                observed = observed + 1;
                if observed > MAX_SYNCHRONOUS_GENERATION_CENSUS_ENTRIES {
                    proof {
                        lemma_non_link_count_prefix(entries@, i + 1);
                        assert(non_link_count(entries@.take(i + 1)) == observed);
                    }
                    return false;
                }
            },
        }
        i = i + 1;
    }
    proof {
        assert(entries@.take(entries@.len() as int) =~= entries@);
    }
    true
}

// === Semantic vector and code-generation retention ==========================

/// The semantic-vector retention backlog a maintenance census observed.
#[derive(Clone, Copy, Debug, PartialEq, Eq, Structural)]
pub struct SemanticVectorBacklogV1 {
    pub pending: u64,
    pub ready: u64,
    pub published: u64,
    pub cancelled: u64,
}

#[derive(Clone, Copy, Debug, PartialEq, Eq, Structural)]
pub struct SemanticVectorRetentionRecordV1 {
    pub pending_generation_count: u64,
    pub ready_generation_count: u64,
    pub observed_non_configured_published_generation_count: u64,
    pub cancelled_generation_count: u64,
}

/// The retention record of the semantic vector store, or `None` when fewer
/// generations are published than the configured roots retain (the census
/// is then behind the configuration and proves nothing).
pub fn semantic_vector_retention_record(
    backlog: SemanticVectorBacklogV1,
    retained_vector_root_count: u64,
) -> (r: Option<SemanticVectorRetentionRecordV1>)
    ensures
        r == (if backlog.published < retained_vector_root_count {
            None
        } else {
            Some(
                SemanticVectorRetentionRecordV1 {
                    pending_generation_count: backlog.pending,
                    ready_generation_count: backlog.ready,
                    observed_non_configured_published_generation_count: (backlog.published
                        - retained_vector_root_count) as u64,
                    cancelled_generation_count: backlog.cancelled,
                },
            )
        }),
{
    if backlog.published < retained_vector_root_count {
        return None;
    }
    Some(
        SemanticVectorRetentionRecordV1 {
            pending_generation_count: backlog.pending,
            ready_generation_count: backlog.ready,
            observed_non_configured_published_generation_count: backlog.published
                - retained_vector_root_count,
            cancelled_generation_count: backlog.cancelled,
        },
    )
}

/// What the census of the graph store's sealed artifacts found.
#[derive(Clone, Copy, Debug, Default, PartialEq, Eq, Structural)]
pub struct SealedStoreCensusV1 {
    pub superseded_count: u64,
    pub superseded_bytes: u64,
    pub abandoned_staging_count: u64,
    pub abandoned_staging_bytes: u64,
    pub head_bytes: u64,
}

/// The stranded sibling scopes a scope-root retention plan found.
#[derive(Clone, Copy, Debug, PartialEq, Eq, Structural)]
pub struct StrandedScopesV1 {
    pub count: u64,
    pub bytes: u64,
}

/// The figures a code-generation retention census gathered; `None` where a
/// part of it could not be proven.
#[derive(Clone, Copy, Debug, PartialEq, Eq, Structural)]
pub struct CodeGenerationCensusV1 {
    pub superseded_generation_count: u64,
    pub superseded_generation_bytes: u64,
    pub collectable_generation_count: u64,
    pub collectable_generation_bytes: u64,
    pub stranded_scopes: Option<StrandedScopesV1>,
    pub sealed: Option<SealedStoreCensusV1>,
    pub live_graph_container_bytes: u64,
    pub deferred_native_retirements: Option<u64>,
}

#[derive(Clone, Copy, Debug, PartialEq, Eq, Structural)]
pub struct CodeGenerationRetentionRecordV1 {
    pub superseded_generation_count: u64,
    pub superseded_generation_bytes: u64,
    pub collectable_generation_count: u64,
    pub collectable_generation_bytes: u64,
    pub stranded_scope_count: u64,
    pub stranded_scope_bytes: u64,
    pub superseded_sealed_generation_count: u64,
    pub superseded_sealed_generation_bytes: u64,
    pub abandoned_sealed_staging_count: u64,
    pub abandoned_sealed_staging_bytes: u64,
    pub sealed_head_generation_bytes: u64,
    pub live_graph_container_bytes: u64,
    pub deferred_native_retirement_count: u64,
}

/// The census is complete only when every part was proven and the vector pin
/// set is known.
pub open spec fn census_completeness(
    census: CodeGenerationCensusV1,
    vector_liveness_incomplete: bool,
) -> DoctorCoverageCompletenessV1 {
    if census.stranded_scopes is Some && census.sealed is Some
        && census.deferred_native_retirements is Some && !vector_liveness_incomplete {
        DoctorCoverageCompletenessV1::Complete
    } else {
        DoctorCoverageCompletenessV1::Partial
    }
}

/// The published record: while the vector pin set is unknown, the
/// collectable, stranded, and superseded-sealed figures read zero (under
/// partial coverage) instead of a claim the census cannot stand behind; an
/// unproven part reads zero too.
pub open spec fn retention_record(
    census: CodeGenerationCensusV1,
    vector_liveness_incomplete: bool,
) -> CodeGenerationRetentionRecordV1 {
    let sealed = match census.sealed {
        Some(s) => s,
        None => SealedStoreCensusV1 {
            superseded_count: 0,
            superseded_bytes: 0,
            abandoned_staging_count: 0,
            abandoned_staging_bytes: 0,
            head_bytes: 0,
        },
    };
    let hide = vector_liveness_incomplete;
    CodeGenerationRetentionRecordV1 {
        superseded_generation_count: census.superseded_generation_count,
        superseded_generation_bytes: census.superseded_generation_bytes,
        collectable_generation_count: if hide {
            0
        } else {
            census.collectable_generation_count
        },
        collectable_generation_bytes: if hide {
            0
        } else {
            census.collectable_generation_bytes
        },
        stranded_scope_count: if hide {
            0
        } else {
            match census.stranded_scopes {
                Some(st) => st.count,
                None => 0,
            }
        },
        stranded_scope_bytes: if hide {
            0
        } else {
            match census.stranded_scopes {
                Some(st) => st.bytes,
                None => 0,
            }
        },
        superseded_sealed_generation_count: if hide {
            0
        } else {
            sealed.superseded_count
        },
        superseded_sealed_generation_bytes: if hide {
            0
        } else {
            sealed.superseded_bytes
        },
        abandoned_sealed_staging_count: sealed.abandoned_staging_count,
        abandoned_sealed_staging_bytes: sealed.abandoned_staging_bytes,
        sealed_head_generation_bytes: sealed.head_bytes,
        live_graph_container_bytes: census.live_graph_container_bytes,
        deferred_native_retirement_count: match census.deferred_native_retirements {
            Some(n) => n,
            None => 0,
        },
    }
}

/// The code-generation retention record and its coverage.
pub fn code_generation_retention_record(
    census: &CodeGenerationCensusV1,
    vector_liveness_incomplete: bool,
) -> (r: (CodeGenerationRetentionRecordV1, DoctorCoverageCompletenessV1))
    ensures
        r.0 == retention_record(*census, vector_liveness_incomplete),
        r.1 == census_completeness(*census, vector_liveness_incomplete),
{
    let completeness = if census.stranded_scopes.is_some() && census.sealed.is_some()
        && census.deferred_native_retirements.is_some() && !vector_liveness_incomplete {
        DoctorCoverageCompletenessV1::Complete
    } else {
        DoctorCoverageCompletenessV1::Partial
    };
    let sealed = match census.sealed {
        Some(s) => s,
        None => SealedStoreCensusV1 {
            superseded_count: 0,
            superseded_bytes: 0,
            abandoned_staging_count: 0,
            abandoned_staging_bytes: 0,
            head_bytes: 0,
        },
    };
    let hide = vector_liveness_incomplete;
    let (stranded_count, stranded_bytes) = match census.stranded_scopes {
        Some(st) => (st.count, st.bytes),
        None => (0, 0),
    };
    let record = CodeGenerationRetentionRecordV1 {
        superseded_generation_count: census.superseded_generation_count,
        superseded_generation_bytes: census.superseded_generation_bytes,
        collectable_generation_count: if hide {
            0
        } else {
            census.collectable_generation_count
        },
        collectable_generation_bytes: if hide {
            0
        } else {
            census.collectable_generation_bytes
        },
        stranded_scope_count: if hide {
            0
        } else {
            stranded_count
        },
        stranded_scope_bytes: if hide {
            0
        } else {
            stranded_bytes
        },
        superseded_sealed_generation_count: if hide {
            0
        } else {
            sealed.superseded_count
        },
        superseded_sealed_generation_bytes: if hide {
            0
        } else {
            sealed.superseded_bytes
        },
        abandoned_sealed_staging_count: sealed.abandoned_staging_count,
        abandoned_sealed_staging_bytes: sealed.abandoned_staging_bytes,
        sealed_head_generation_bytes: sealed.head_bytes,
        live_graph_container_bytes: census.live_graph_container_bytes,
        deferred_native_retirement_count: match census.deferred_native_retirements {
            Some(n) => n,
            None => 0,
        },
    };
    (record, completeness)
}

// === Runtime signals ========================================================

/// The orphan-store retention window in seconds: the configured days, or
/// unbounded (`i64::MAX`) when unset or too large to represent.
pub fn retention_secs(orphan_store_gc_days: Option<u64>) -> (r: i64)
    ensures
        r == (match orphan_store_gc_days {
            Some(days) => if days * 86400 <= i64::MAX {
                (days * 86400) as i64
            } else {
                i64::MAX
            },
            None => i64::MAX,
        }),
{
    match orphan_store_gc_days {
        Some(days) => {
            if days <= 106751991167300 {
                assert(days * 86400 <= i64::MAX) by (nonlinear_arith)
                    requires
                        days <= 106751991167300,
                ;
                (days * 86400) as i64
            } else {
                assert(days * 86400 > i64::MAX) by (nonlinear_arith)
                    requires
                        days > 106751991167300,
                ;
                i64::MAX
            }
        },
        None => i64::MAX,
    }
}

/// A quick check that ran reports whether it found no problem; one that
/// could not run reports nothing.
pub fn quick_check_ok<P, E>(quick_check: &Result<Option<P>, E>) -> (r: Option<bool>)
    ensures
        r == (match quick_check {
            Ok(problem) => Some(problem is None),
            Err(_) => None,
        }),
{
    match quick_check {
        Ok(problem) => Some(problem.is_none()),
        Err(_) => None,
    }
}

/// How far a session temporal health pass got.
#[derive(Clone, Copy, Debug, PartialEq, Eq, Structural)]
pub enum SessionTemporalHealthStatus {
    Complete,
    Partial,
    Unavailable,
    Locked,
}

/// Only a complete temporal pass says anything: healthy exactly when it
/// found nothing.
pub fn temporal_ok(status: SessionTemporalHealthStatus, findings_empty: bool) -> (r: Option<bool>)
    ensures
        r == (if status == SessionTemporalHealthStatus::Complete {
            Some(findings_empty)
        } else {
            None
        }),
{
    match status {
        SessionTemporalHealthStatus::Complete => Some(findings_empty),
        SessionTemporalHealthStatus::Partial
        | SessionTemporalHealthStatus::Unavailable
        | SessionTemporalHealthStatus::Locked => None,
    }
}

// === Report request identity ================================================

pub const DOCTOR_REPORT_CAPABILITY: &'static str = "capability.application.doctor.report";

pub const DOCTOR_REPORT_USE_CASE: &'static str = "use-case.application.doctor.report";

pub const DOCTOR_REPORT_ACTOR: &'static str = "actor.tracedecay-daemon";

/// How long a Doctor report's request context stays valid.
pub const DOCTOR_CONTEXT_HORIZON_MICROS: i64 = 30000000;

/// The identities a Doctor report request derives from its clock reading and
/// minted request id.
#[derive(Clone, Debug, PartialEq, Eq)]
pub struct DoctorRequestIdentityV1 {
    pub observed_at_micros: i64,
    pub expires_at_micros: i64,
    pub grant_id: String,
    pub cancellation_id: String,
}

/// The request expires a fixed horizon after it was observed (saturating);
/// the grant and cancellation ids carry the minted request id as suffix.
pub fn doctor_request_identity(observed_at_micros: i64, request_id: &str) -> (r:
    DoctorRequestIdentityV1)
    ensures
        r.observed_at_micros == observed_at_micros,
        r.expires_at_micros == (if observed_at_micros + DOCTOR_CONTEXT_HORIZON_MICROS
            <= i64::MAX {
            observed_at_micros + DOCTOR_CONTEXT_HORIZON_MICROS
        } else {
            i64::MAX as int
        }),
        r.grant_id@ == "grant.daemon.doctor."@ + request_id@,
        r.cancellation_id@ == "cancel.daemon.doctor."@ + request_id@,
{
    let expires_at_micros = if observed_at_micros <= i64::MAX - DOCTOR_CONTEXT_HORIZON_MICROS {
        observed_at_micros + DOCTOR_CONTEXT_HORIZON_MICROS
    } else {
        i64::MAX
    };
    let mut grant_id = String::from_str("grant.daemon.doctor.");
    grant_id.append(request_id);
    let mut cancellation_id = String::from_str("cancel.daemon.doctor.");
    cancellation_id.append(request_id);
    DoctorRequestIdentityV1 { observed_at_micros, expires_at_micros, grant_id, cancellation_id }
}

#[verifier::external_type_specification]
#[verifier::external_body]
pub struct ExSystemTime(std::time::SystemTime);

#[verifier::external_type_specification]
#[verifier::external_body]
pub struct ExSystemTimeError(std::time::SystemTimeError);

/// `SystemTime::now`: the system clock's reading. Nothing is claimed of it.
#[verifier::external_body]
fn system_time_now() -> (r: std::time::SystemTime) {
    std::time::SystemTime::now()
}

/// `SystemTime::duration_since(UNIX_EPOCH)`: the time elapsed since the Unix
/// epoch, an error when the reading is earlier. Nothing is claimed of it.
#[verifier::external_body]
fn duration_since_unix_epoch(time: &std::time::SystemTime) -> (r: Result<
    std::time::Duration,
    std::time::SystemTimeError,
>) {
    time.duration_since(std::time::UNIX_EPOCH)
}

/// `Duration::as_secs`: the whole seconds of a duration. Nothing is claimed
/// of it, the duration being opaque here.
#[verifier::external_body]
fn duration_as_secs(duration: &std::time::Duration) -> (r: u64) {
    duration.as_secs()
}

/// The epoch seconds a clock reading stands for: zero before the epoch and
/// `i64::MAX` past what an `i64` holds.
pub fn epoch_secs(elapsed: Option<u64>) -> (r: i64)
    ensures
        r == (match elapsed {
            None => 0,
            Some(s) => if s <= i64::MAX {
                s as int
            } else {
                i64::MAX as int
            },
        }),
{
    match elapsed {
        None => 0,
        Some(s) => if s <= 9223372036854775807u64 {
            s as i64
        } else {
            i64::MAX
        },
    }
}

/// The current time in epoch seconds, never negative.
pub fn now_secs() -> (r: i64)
    ensures
        r >= 0,
{
    let elapsed = match duration_since_unix_epoch(&system_time_now()) {
        Ok(duration) => Some(duration_as_secs(&duration)),
        Err(_) => None,
    };
    epoch_secs(elapsed)
}

// === Admitted report ========================================================

/// A composed Doctor report as the dashboard receives it, with the table
/// growth evidence and schema-convergence findings gathered beside it.
#[derive(Clone)]
pub struct AdmittedDoctorReportV1<Report, Evidence> {
    pub report: Report,
    pub table_growth_evidence: Vec<Evidence>,
    pub schema_convergences: Vec<SchemaConvergenceFindingV1>,
}

impl<Report, Evidence> AdmittedDoctorReportV1<Report, Evidence> {
    /// A report with no evidence and no findings beside it.
    pub fn new(report: Report) -> (r: Self)
        ensures
            r.report == report,
            r.table_growth_evidence@.len() == 0,
            r.schema_convergences@.len() == 0,
    {
        AdmittedDoctorReportV1 {
            report,
            table_growth_evidence: Vec::new(),
            schema_convergences: Vec::new(),
        }
    }

    /// Replaces the table growth evidence, leaving the rest.
    pub fn with_table_growth_evidence(self, evidence: Vec<Evidence>) -> (r: Self)
        ensures
            r.report == self.report,
            r.table_growth_evidence@ == evidence@,
            r.schema_convergences@ == self.schema_convergences@,
    {
        AdmittedDoctorReportV1 {
            report: self.report,
            table_growth_evidence: evidence,
            schema_convergences: self.schema_convergences,
        }
    }

    /// Replaces the schema-convergence findings, leaving the rest.
    pub fn with_schema_convergences(self, findings: Vec<SchemaConvergenceFindingV1>) -> (r: Self)
        ensures
            r.report == self.report,
            r.table_growth_evidence@ == self.table_growth_evidence@,
            r.schema_convergences@ == findings@,
    {
        AdmittedDoctorReportV1 {
            report: self.report,
            table_growth_evidence: self.table_growth_evidence,
            schema_convergences: findings,
        }
    }
}

} // verus!
