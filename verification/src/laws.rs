//! Properties that hold across calls and over every input: what the status
//! surfaces promise as a whole.

use vstd::prelude::*;

use crate::code_search::{SearchCoverageView, coverage_any_servable};
use crate::mcp_status::{CodeIndexRetrievalServingV1, optional_static, serving_answer_for, serving_freshness};
use crate::status_markdown::{StatusFieldView, contains_text, field_line, is_warning, keys_strictly_sorted, markdown_of, sorted_entries};
use crate::text::{lemma_lex_irreflexive, lex_lt};
use crate::dashboard::{SelectedProjectApplicationRead, rewritten_path};
use crate::convergence::{SchemaConvergenceFindingV1, SchemaConvergenceStateV1};
use crate::convergence_ledger::{
    admits_schedule, ConvergenceStatusView, RegisteredSchemaConvergenceStatus, SchemaConvergenceLedger,
    ShardConvergenceMetadata, findings_for, unconverged_for,
};
use crate::convergence_ledger::{
    DaemonSessionRuntimeRegistryV1, ForegroundProjectOpenCounter, counter_modulus,
};
use crate::dashboard::{
    DashboardTestProjectGraphsV1, ParsedAuthorityView, ParsedOriginView, ProjectGatewayDecisionV1,
    RequestMethod, admission_outcome, application_read_for, gateway_decision, is_loopback_name,
    is_skills_route, normalized_path, trim_brackets,
};
use crate::doctor::{
    CodeGenerationCensusV1, DoctorCoverageCompletenessV1, EngineState, LanguageServerStateV1,
    census_completeness, language_server_state, retention_record,
};
use crate::mcp_status::{
    CodeIndexWorktreeFreshnessV1, SessionIngestHealthV1, catch_up_labels, convergence_summary,
    coverage_incomplete, freshness_status_label, freshness_warning, sources_unavailable,
    staleness_is,
};
use crate::status_cli::{
    COUNTRY_FLAGS_MAX_AGE_SECS, DEFAULT_DAEMON_OPERATION_DEADLINE_MS, STATUS_RESPONSE_MARGIN_MS,
    WORLDWIDE_TOTAL_MAX_AGE_SECS, server_budget_for,
};

verus! {

// === Schema convergence =====================================================

/// A schedule that admitted a shard leaves it refused by every later
/// schedule: the admission recorded a status for it, and running and
/// recording outcomes only ever add statuses, so the shard is refused until
/// it is retired.
pub proof fn law_admitted_shard_is_refused_until_retired(
    before: SchemaConvergenceLedger,
    admitted: SchemaConvergenceLedger,
    later: SchemaConvergenceLedger,
    shard: u64,
)
    requires
        admits_schedule(before, shard),
        admitted.statuses() == before.statuses().insert(
            shard,
            RegisteredSchemaConvergenceStatus::Pending,
        ),
        admitted.statuses().dom().subset_of(later.statuses().dom()),
    ensures
        !admits_schedule(admitted, shard),
        !admits_schedule(later, shard),
{
    assert(admitted.statuses().contains_key(shard));
}

/// Retiring a shard whose task joined forgets it: the next schedule admits
/// it exactly when the ledger still accepts work. A failed join keeps its
/// status, so the shard stays refused.
pub proof fn law_retired_shard_is_admitted_again(
    before: SchemaConvergenceLedger,
    after: SchemaConvergenceLedger,
    kept: SchemaConvergenceLedger,
    shard: u64,
)
    requires
        before.statuses().contains_key(shard),
        after.statuses() == before.statuses().remove(shard),
        after.accepting() == before.accepting(),
        kept.statuses() == before.statuses(),
    ensures
        admits_schedule(after, shard) == before.accepting(),
        !admits_schedule(kept, shard),
{
}

/// After shutdown begins no shard is admitted, whatever its status.
pub proof fn law_shutdown_admits_nothing(ledger: SchemaConvergenceLedger)
    requires
        !ledger.accepting(),
    ensures
        forall|shard: u64| !admits_schedule(ledger, shard),
{
}

/// Whatever calls led to it, a registry has started no more convergence runs
/// than it admitted schedules; its two counters are those totals wrapped at
/// the counter's width; and a task holding the single convergence permit is
/// one whose shard is marked running, so at most one shard runs under it.
pub proof fn law_executions_never_exceed_schedules(registry: DaemonSessionRuntimeRegistryV1)
    requires
        registry.convergence().wf(),
    ensures
        registry.convergence().executions_total() <= registry.convergence().schedules_total(),
        registry.convergence().schedule_count() as nat == registry.convergence().schedules_total()
            % counter_modulus(),
        registry.convergence().execution_count() as nat
            == registry.convergence().executions_total() % counter_modulus(),
        registry.convergence().permit_holder() matches Some(holder)
            ==> registry.convergence().statuses().contains_key(holder)
            && registry.convergence().statuses()[holder]@ is Running,
{
    registry.convergence().lemma_wf_counts();
}

/// The unconverged list names only listed shards that are not complete, each
/// with its recorded status, and names every such shard.
pub proof fn law_unconverged_lists_exactly_the_incomplete_shards(
    keys: Seq<u64>,
    statuses: Map<u64, RegisteredSchemaConvergenceStatus>,
)
    ensures
        forall|i: int|
            0 <= i < unconverged_for(keys, statuses).len() ==> {
                let e = #[trigger] unconverged_for(keys, statuses)[i];
                &&& keys.contains(e.0)
                &&& e.1 == statuses[e.0]@
                &&& !(e.1 is Complete)
            },
        forall|j: int|
            0 <= j < keys.len() && !(statuses[#[trigger] keys[j]]@ is Complete) ==> exists|i: int|
                0 <= i < unconverged_for(keys, statuses).len() && unconverged_for(
                    keys,
                    statuses,
                )[i].0 == keys[j],
    decreases keys.len(),
{
    if keys.len() > 0 {
        let earlier_keys = keys.drop_last();
        law_unconverged_lists_exactly_the_incomplete_shards(earlier_keys, statuses);
        let earlier = unconverged_for(earlier_keys, statuses);
        let all = unconverged_for(keys, statuses);
        assert forall|i: int| 0 <= i < all.len() implies keys.contains(#[trigger] all[i].0) && all[i].1
            == statuses[all[i].0]@ && !(all[i].1 is Complete) by {
            if i < earlier.len() {
                assert(all[i] == earlier[i]);
                let k = choose|k: int| 0 <= k < earlier_keys.len() && earlier_keys[k] == earlier[i].0;
                assert(keys[k] == earlier[i].0);
            } else {
                assert(keys[keys.len() - 1] == keys.last());
            }
        }
        assert forall|j: int|
            0 <= j < keys.len() && !(statuses[#[trigger] keys[j]]@ is Complete) implies exists|i: int|
                0 <= i < all.len() && all[i].0 == keys[j] by {
            if j < keys.len() - 1 {
                assert(earlier_keys[j] == keys[j]);
                let i = choose|i: int| 0 <= i < earlier.len() && earlier[i].0 == earlier_keys[j];
                assert(all[i] == earlier[i]);
            } else {
                assert(all[earlier.len() as int].0 == keys[j]);
            }
        }
    }
}

/// Every listed shard with scheduling metadata is observed exactly once, in
/// list order: the observations are as many as those shards.
pub proof fn law_observations_report_each_scheduled_shard(
    keys: Seq<u64>,
    statuses: Map<u64, RegisteredSchemaConvergenceStatus>,
    metadata: Map<u64, ShardConvergenceMetadata>,
)
    requires
        forall|j: int| 0 <= j < keys.len() ==> metadata.contains_key(#[trigger] keys[j]),
    ensures
        findings_for(keys, statuses, metadata).len() == keys.len(),
    decreases keys.len(),
{
    if keys.len() > 0 {
        let earlier = keys.drop_last();
        assert forall|j: int| 0 <= j < earlier.len() implies metadata.contains_key(
            #[trigger] earlier[j],
        ) by {
            assert(earlier[j] == keys[j]);
        }
        law_observations_report_each_scheduled_shard(earlier, statuses, metadata);
        assert(metadata.contains_key(keys[keys.len() - 1]));
    }
}

/// The convergence summary says completed only when no finding is degraded
/// or still in progress.
pub proof fn law_convergence_completed_only_when_every_store_completed(
    findings: Seq<SchemaConvergenceFindingV1>,
)
    requires
        convergence_summary(findings) == "completed"@,
    ensures
        forall|i: int|
            0 <= i < findings.len() ==> #[trigger] findings[i].state
                == SchemaConvergenceStateV1::Completed,
{
    reveal_strlit("completed");
    reveal_strlit("degraded");
    reveal_strlit("in_progress");
    assert forall|i: int| 0 <= i < findings.len() implies #[trigger] findings[i].state
        == SchemaConvergenceStateV1::Completed by {
        if findings[i].state == SchemaConvergenceStateV1::Degraded {
            assert("degraded"@.len() != "completed"@.len());
            assert(convergence_summary(findings) == "degraded"@);
        } else if findings[i].state == SchemaConvergenceStateV1::PendingSchemaMigration
            || findings[i].state == SchemaConvergenceStateV1::ReleasedShapeConvergenceInProgress {
            assert("in_progress"@.len() != "completed"@.len());
            assert(convergence_summary(findings) != "completed"@);
        }
    }
}

// === Code-index freshness and historical catch-up ===========================

/// A worktree whose convergence is parked on a contract violation reports
/// parked, never warming.
pub proof fn law_parked_violation_reads_parked(f: CodeIndexWorktreeFreshnessV1)
    requires
        f.parked is Some,
        staleness_is(f, "parked"@),
    ensures
        freshness_status_label(f) == "parked"@,
{
}

/// A parked convergence is always surfaced: whatever the label, the reading
/// carries a warning.
pub proof fn law_parked_convergence_always_warns(f: CodeIndexWorktreeFreshnessV1)
    requires
        f.parked is Some,
    ensures
        freshness_warning(f) is Some,
{
}

/// Historical recall reads current only when sources are observable, the
/// backlog is within the threshold, and every provider sweep is complete.
pub proof fn law_historical_current_only_after_every_sweep(
    ingest: SessionIngestHealthV1,
    warning_threshold_bytes: u64,
    typed_history_providers: Seq<String>,
)
    requires
        catch_up_labels(
            sources_unavailable(ingest),
            ingest.max_transcript_pending_bytes > warning_threshold_bytes,
            coverage_incomplete(ingest, typed_history_providers),
        ).0 == "current"@,
    ensures
        !sources_unavailable(ingest),
        ingest.max_transcript_pending_bytes <= warning_threshold_bytes,
        !coverage_incomplete(ingest, typed_history_providers),
{
    reveal_strlit("current");
    reveal_strlit("unavailable");
    reveal_strlit("warming");
    assert("unavailable"@.len() != "current"@.len());
    assert("warming"@[0] != "current"@[0]);
}

// === Status command =========================================================

/// The deadline carried to the daemon ends at least the response margin
/// before the command's own budget, so the daemon's typed answer wins the
/// race against the command's backstop.
pub proof fn law_server_deadline_ends_before_the_command_budget(command_budget_ms: u64)
    requires
        command_budget_ms > STATUS_RESPONSE_MARGIN_MS,
    ensures
        server_budget_for(command_budget_ms) + STATUS_RESPONSE_MARGIN_MS <= command_budget_ms,
        server_budget_for(command_budget_ms) <= DEFAULT_DAEMON_OPERATION_DEADLINE_MS,
{
}

/// A cache just refreshed at `now` is not due again at `now`.
pub proof fn law_refreshed_cache_is_not_due(
    last_worldwide_fetch_at: i64,
    last_flags_fetch_at: i64,
    now: i64,
)
    requires
        last_worldwide_fetch_at == now,
        last_flags_fetch_at == now,
    ensures
        !(now - last_worldwide_fetch_at >= WORLDWIDE_TOTAL_MAX_AGE_SECS),
        !(now - last_flags_fetch_at >= COUNTRY_FLAGS_MAX_AGE_SECS),
{
}

// === Doctor =================================================================

/// Figures withheld while the vector pin set is unknown are published only
/// under partial coverage, never as a complete claim.
pub proof fn law_withheld_retention_figures_are_partial(census: CodeGenerationCensusV1)
    ensures
        retention_record(census, true).collectable_generation_count == 0,
        retention_record(census, true).stranded_scope_count == 0,
        retention_record(census, true).superseded_sealed_generation_count == 0,
        census_completeness(census, true) == DoctorCoverageCompletenessV1::Partial,
{
}

/// An unproven part of the census (stranded scopes, sealed artifacts, or
/// deferred retirements) publishes zero, and only under partial coverage.
pub proof fn law_unproven_census_parts_read_zero_under_partial(
    census: CodeGenerationCensusV1,
    vector_liveness_incomplete: bool,
)
    requires
        census.stranded_scopes is None || census.sealed is None
            || census.deferred_native_retirements is None,
    ensures
        census_completeness(census, vector_liveness_incomplete)
            == DoctorCoverageCompletenessV1::Partial,
        census.stranded_scopes is None ==> retention_record(
            census,
            vector_liveness_incomplete,
        ).stranded_scope_count == 0,
        census.deferred_native_retirements is None ==> retention_record(
            census,
            vector_liveness_incomplete,
        ).deferred_native_retirement_count == 0,
{
}

/// A crashed engine is never reported as anything milder.
pub proof fn law_crashed_engine_dominates(states: Seq<EngineState>)
    requires
        states.contains(EngineState::Crashed),
    ensures
        language_server_state(states) == LanguageServerStateV1::Crashed,
{
}

// === Dashboard ==============================================================

/// Every admitted request named the bound loopback dashboard in its Host,
/// and any Origin it carried was that same `http` origin.
pub proof fn law_admitted_requests_name_the_bound_loopback(
    port: u16,
    host: Option<ParsedAuthorityView>,
    origin: Option<Option<ParsedOriginView>>,
)
    requires
        admission_outcome(port, host, origin) is Ok,
    ensures
        host matches Some(a) && is_loopback_name(trim_brackets(a.host)) && a.port == Some(port),
        origin matches Some(o) ==> (o matches Some(parsed) && parsed.scheme == Some("http"@)),
{
}

/// A project other than the active one is read-only: a write that is not one
/// of its application reads or a delivery acknowledgement is refused, and a
/// read (GET or HEAD) is never refused as a write.
pub proof fn law_non_active_projects_are_read_only(
    active_project_id: Option<Seq<char>>,
    project_id: Seq<char>,
    method: RequestMethod,
    tail: Seq<char>,
    workflow_segments: Seq<String>,
    work_segments: Seq<String>,
)
    requires
        active_project_id != Some(project_id),
        !is_skills_route(tail),
    ensures
        (method == RequestMethod::Get || method == RequestMethod::Head) ==> gateway_decision(
            active_project_id,
            project_id,
            method,
            tail,
            workflow_segments,
            work_segments,
        ) != ProjectGatewayDecisionV1::ReadOnlyProject,
        (method != RequestMethod::Get && method != RequestMethod::Head && application_read_for(
            method,
            tail,
            workflow_segments,
            work_segments,
        ) is None && !(method == RequestMethod::Post && tail == "events/delivery-ack"@))
            ==> gateway_decision(
            active_project_id,
            project_id,
            method,
            tail,
            workflow_segments,
            work_segments,
        ) == ProjectGatewayDecisionV1::ReadOnlyProject,
{
}

/// Only a POST is ever answered as a selected project's application read.
pub proof fn law_application_reads_are_posts(
    method: RequestMethod,
    tail: Seq<char>,
    workflow_segments: Seq<String>,
    work_segments: Seq<String>,
)
    requires
        method != RequestMethod::Post,
    ensures
        application_read_for(method, tail, workflow_segments, work_segments) is None,
{
}

/// A registered graph is what its root resolves to under every spelling of
/// the same path (extra, trailing and `.` separators aside), and registering
/// one root leaves every other root's resolution as it was.
pub proof fn law_registered_graph_is_resolved<G>(
    before: DashboardTestProjectGraphsV1<G>,
    after: DashboardTestProjectGraphsV1<G>,
    root: Seq<char>,
    spelling: Seq<char>,
    graph: G,
    other: Seq<char>,
)
    requires
        after.graphs() == before.graphs().insert(normalized_path(root), graph),
        normalized_path(spelling) == normalized_path(root),
    ensures
        after.graphs().contains_key(normalized_path(spelling)),
        after.graphs()[normalized_path(spelling)] == graph,
        normalized_path(other) != normalized_path(root) ==> after.graphs().contains_key(
            normalized_path(other),
        ) == before.graphs().contains_key(normalized_path(other)),
        normalized_path(other) != normalized_path(root) && before.graphs().contains_key(
            normalized_path(other),
        ) ==> after.graphs()[normalized_path(other)] == before.graphs()[normalized_path(other)],
{
}

/// Releasing an admitted foreground open undoes it: the count returns to
/// what it was, and convergence is woken exactly when nothing else was open.
pub proof fn law_release_undoes_enter(
    before: ForegroundProjectOpenCounter,
    entered: ForegroundProjectOpenCounter,
    released: ForegroundProjectOpenCounter,
)
    requires
        entered.active() == before.active() + 1,
        released.active() == entered.active() - 1,
    ensures
        released.active() == before.active(),
        (released.active() == 0) == (before.active() == 0),
{
}

// === Reported values ========================================================

/// Search keeps serving while any lane can: a coverage is servable exactly
/// when its exact, lexical or graph lane is not unavailable, so any one ready
/// lane (the graph lane alone included) is enough, and only a coverage with
/// every lane unavailable fails.
pub proof fn law_any_ready_lane_keeps_search_serving(c: SearchCoverageView)
    ensures
        coverage_any_servable(c) == (!(c.exact is Unavailable) || !(c.lexical is Unavailable)
            || !(c.graph is Unavailable)),
        !(c.exact is Unavailable) ==> coverage_any_servable(c),
        !(c.lexical is Unavailable) ==> coverage_any_servable(c),
        !(c.graph is Unavailable) ==> coverage_any_servable(c),
        (c.exact is Unavailable && c.lexical is Unavailable && c.graph is Unavailable)
            ==> !coverage_any_servable(c),
{
}

/// What the retrieval serving answer says of a worktree reading: nothing
/// serves until a generation is sealed; then a fresh index reads current, a
/// verifying one names source verification, and any other staleness names
/// what the index is doing: rebuilding exactly when a rebuild is in flight,
/// stalled exactly when none is. The seated generation's age is the whole
/// seconds since it was sealed, and the last reconcile's age the whole
/// seconds since that reconcile.
pub proof fn law_serving_condition_names_what_the_index_is_doing(
    r: CodeIndexRetrievalServingV1,
    f: CodeIndexWorktreeFreshnessV1,
    now_micros: i64,
)
    requires
        serving_answer_for(r, f, now_micros),
    ensures
        f.latest_generation_id is None ==> r is NotServing && r->reason@
            == "generation_rebuilding"@,
        f.latest_generation_id is Some ==> r is Serving,
        f.latest_generation_id is Some && f.staleness_state is None ==> r->freshness@
            == "unknown"@ && r->condition is None,
        f.latest_generation_id is Some && f.staleness_state is Some && f.staleness_state->0@
            == "fresh"@ ==> r->freshness@ == "current"@ && r->condition is None,
        f.latest_generation_id is Some && f.staleness_state is Some && f.staleness_state->0@
            == "verifying"@ ==> r->freshness@ == "last_complete_stale"@ && r->condition is Some
            && r->condition->0@ == "source_verification"@,
        f.latest_generation_id is Some && f.staleness_state is Some && f.staleness_state->0@
            != "fresh"@ && f.staleness_state->0@ != "verifying"@ ==> {
            &&& r->freshness@ == "last_complete_stale"@
            &&& r->condition is Some
            &&& (r->condition->0@ == "rebuilding"@ <==> f.rebuild_in_flight)
            &&& (r->condition->0@ == "stalled"@ <==> !f.rebuild_in_flight)
        },
        f.latest_generation_id is Some && f.sealed_at_micros is None
            ==> r->seated_generation_age_seconds is None,
        f.latest_generation_id is Some && f.sealed_at_micros is Some && 0
            <= f.sealed_at_micros->0 <= now_micros ==> r->seated_generation_age_seconds == Some(
            ((now_micros - f.sealed_at_micros->0) / 1_000_000) as i64,
        ),
        f.latest_generation_id is Some && f.last_reconcile_micros is None
            ==> r->last_reconcile_age_seconds is None,
        f.latest_generation_id is Some && f.last_reconcile_micros is Some && 0
            <= f.last_reconcile_micros->0 <= now_micros ==> r->last_reconcile_age_seconds == Some(
            ((now_micros - f.last_reconcile_micros->0) / 1_000_000) as i64,
        ),
{
    reveal_strlit("generation_rebuilding");
    reveal_strlit("unknown");
    reveal_strlit("fresh");
    reveal_strlit("current");
    reveal_strlit("verifying");
    reveal_strlit("last_complete_stale");
    reveal_strlit("source_verification");
    reveal_strlit("rebuilding");
    reveal_strlit("stalled");
    assert("fresh"@.len() != "verifying"@.len());
    if f.latest_generation_id is Some {
        let (label, condition) = serving_freshness(f);
        assert(r->freshness@ == label && optional_static(r->condition) == condition);
        match f.staleness_state {
            Some(st) => {
                if st@ == "fresh"@ {
                } else if st@ == "verifying"@ {
                    assert("fresh"@ != "verifying"@);
                    assert(condition == Some("source_verification"@));
                    assert(r->condition is Some);
                    assert(r->condition->0@ == "source_verification"@);
                    assert(label == "last_complete_stale"@);
                } else {
                    assert(r->condition is Some);
                    if f.rebuild_in_flight {
                        assert(r->condition->0@ == "rebuilding"@);
                        assert("rebuilding"@ != "stalled"@);
                    } else {
                        assert(r->condition->0@ == "stalled"@);
                        assert("rebuilding"@ != "stalled"@);
                    }
                }
            },
            None => {},
        }
    }
}

/// The language server's state is the most severe engine state present: any
/// crashed engine makes it crashed; otherwise any unavailable one,
/// unavailable; otherwise any disabled one, disabled; otherwise any
/// refreshing one, refreshing; otherwise ready when every engine is ready,
/// and available when some engine is still starting.
pub proof fn law_language_server_state_is_the_most_severe(states: Seq<EngineState>)
    ensures
        (language_server_state(states) == LanguageServerStateV1::Crashed) == states.contains(
            EngineState::Crashed,
        ),
        (language_server_state(states) == LanguageServerStateV1::Unavailable) == (!states.contains(
            EngineState::Crashed,
        ) && states.contains(EngineState::Unavailable)),
        (language_server_state(states) == LanguageServerStateV1::Disabled) == (!states.contains(
            EngineState::Crashed,
        ) && !states.contains(EngineState::Unavailable) && states.contains(EngineState::Disabled)),
        (language_server_state(states) == LanguageServerStateV1::Refreshing) == (!states.contains(
            EngineState::Crashed,
        ) && !states.contains(EngineState::Unavailable) && !states.contains(EngineState::Disabled)
            && states.contains(EngineState::Refreshing)),
        (language_server_state(states) == LanguageServerStateV1::Available) == (states.contains(
            EngineState::Starting,
        ) && !states.contains(EngineState::Crashed) && !states.contains(EngineState::Unavailable)
            && !states.contains(EngineState::Disabled) && !states.contains(
            EngineState::Refreshing,
        )),
        (language_server_state(states) == LanguageServerStateV1::Ready) == (forall|i: int|
            0 <= i < states.len() ==> #[trigger] states[i] == EngineState::Ready),
{
    if !states.contains(EngineState::Crashed) && !states.contains(EngineState::Unavailable)
        && !states.contains(EngineState::Disabled) && !states.contains(EngineState::Refreshing) {
        if forall|i: int| 0 <= i < states.len() ==> #[trigger] states[i] == EngineState::Ready {
            assert(!states.contains(EngineState::Starting));
        } else {
            let i = choose|i: int| 0 <= i < states.len() && #[trigger] states[i] != EngineState::Ready;
            assert(states[i] == EngineState::Starting);
            assert(states.contains(EngineState::Starting));
        }
    } else {
        if states.contains(EngineState::Crashed) {
            let i = choose|i: int| 0 <= i < states.len() && states[i] == EngineState::Crashed;
            assert(states[i] != EngineState::Ready);
        } else if states.contains(EngineState::Unavailable) {
            let i = choose|i: int| 0 <= i < states.len() && states[i] == EngineState::Unavailable;
            assert(states[i] != EngineState::Ready);
        } else if states.contains(EngineState::Disabled) {
            let i = choose|i: int| 0 <= i < states.len() && states[i] == EngineState::Disabled;
            assert(states[i] != EngineState::Ready);
        } else {
            let i = choose|i: int| 0 <= i < states.len() && states[i] == EngineState::Refreshing;
            assert(states[i] != EngineState::Ready);
        }
    }
}

/// A selected project's application read is forwarded as the operation alone:
/// the tail with its family (`feedback/`, `work/` or `application/`) taken
/// off, after a `/`, with `?` and the query when there is one. A tail outside
/// the family is not forwarded, and any other request goes under `/api/`.
pub proof fn law_application_reads_forward_the_operation_alone(
    op: Seq<char>,
    q: Seq<char>,
    tail: Seq<char>,
)
    ensures
        rewritten_path("feedback/"@ + op, None, Some(SelectedProjectApplicationRead::Feedback))
            == Some("/"@ + op),
        rewritten_path("feedback/"@ + op, Some(q), Some(SelectedProjectApplicationRead::Feedback))
            == Some("/"@ + op + "?"@ + q),
        rewritten_path("work/"@ + op, None, Some(SelectedProjectApplicationRead::Work)) == Some(
            "/"@ + op,
        ),
        rewritten_path("work/"@ + op, Some(q), Some(SelectedProjectApplicationRead::Work)) == Some(
            "/"@ + op + "?"@ + q,
        ),
        rewritten_path("application/"@ + op, None, Some(SelectedProjectApplicationRead::Workflow))
            == Some("/"@ + op),
        rewritten_path(
            "application/"@ + op,
            Some(q),
            Some(SelectedProjectApplicationRead::Workflow),
        ) == Some("/"@ + op + "?"@ + q),
        !(tail.len() >= 9 && tail.subrange(0, 9) == "feedback/"@) ==> rewritten_path(
            tail,
            None,
            Some(SelectedProjectApplicationRead::Feedback),
        ) is None,
        rewritten_path(tail, None, None) == Some("/api/"@ + tail),
        rewritten_path(tail, Some(q), None) == Some("/api/"@ + tail + "?"@ + q),
{
    reveal_strlit("feedback/");
    reveal_strlit("work/");
    reveal_strlit("application/");
    reveal_strlit("/");
    reveal_strlit("?");
    reveal_strlit("/api/");
    let f = "feedback/"@;
    let w = "work/"@;
    let a = "application/"@;
    assert((f + op).subrange(0, f.len() as int) =~= f);
    assert((f + op).subrange(f.len() as int, (f + op).len() as int) =~= op);
    assert((w + op).subrange(0, w.len() as int) =~= w);
    assert((w + op).subrange(w.len() as int, (w + op).len() as int) =~= op);
    assert((a + op).subrange(0, a.len() as int) =~= a);
    assert((a + op).subrange(a.len() as int, (a + op).len() as int) =~= op);
    assert(("/"@ + op + Seq::<char>::empty()) =~= "/"@ + op);
    assert(("/"@ + op + ("?"@ + q)) =~= "/"@ + op + "?"@ + q);
    assert(("/api/"@ + tail + Seq::<char>::empty()) =~= "/api/"@ + tail);
    assert(("/api/"@ + tail + ("?"@ + q)) =~= "/api/"@ + tail + "?"@ + q);
}

proof fn lemma_single_entry_sorted(e: (Seq<char>, StatusFieldView))
    ensures
        sorted_entries(seq![e]) == seq![e],
        markdown_of(seq![e]) == (if is_warning(e) {
            (Seq::<(Seq<char>, Seq<char>)>::empty(), seq![e.1->Text_0])
        } else {
            match field_line(e) {
                Some(line) => (seq![line], Seq::<Seq<char>>::empty()),
                None => (Seq::<(Seq<char>, Seq<char>)>::empty(), Seq::<Seq<char>>::empty()),
            }
        }),
{
    let one = seq![e];
    assert(keys_strictly_sorted(one));
    let s = sorted_entries(one);
    assert(keys_strictly_sorted(s) && s.to_set() == one.to_set());
    assert(one.to_set().contains(e)) by {
        assert(one[0] == e);
    }
    assert(s.contains(e));
    if s.len() >= 2 {
        assert(s.to_set().contains(s[0]));
        assert(s.to_set().contains(s[1]));
        assert(one.contains(s[0]));
        assert(one.contains(s[1]));
        assert(s[0] == e && s[1] == e);
        assert(lex_lt(s[0].0, s[1].0));
        lemma_lex_irreflexive(e.0);
        assert(false);
    }
    assert(s.len() == 1);
    assert(s.to_set().contains(s[0]));
    assert(one.contains(s[0]));
    assert(s[0] == e);
    assert(s =~= one);
    assert(one.drop_last() =~= Seq::<(Seq<char>, StatusFieldView)>::empty());
    assert(markdown_of(one.drop_last()) == (
        Seq::<(Seq<char>, Seq<char>)>::empty(),
        Seq::<Seq<char>>::empty(),
    ));
    assert(Seq::<Seq<char>>::empty().push(e.1->Text_0) =~= seq![e.1->Text_0]);
    match field_line(e) {
        Some(line) => {
            assert(Seq::<(Seq<char>, Seq<char>)>::empty().push(line) =~= seq![line]);
        },
        None => {},
    }
}

/// A true/false entry is shown with the text of its own value: an answer
/// holding only such an entry shows exactly that field, `false` as "false"
/// and `true` as "true", and gathers no warning.
pub proof fn law_bool_entries_show_their_own_value(k: Seq<char>, b: bool)
    ensures
        !b ==> markdown_of(sorted_entries(seq![(k, StatusFieldView::Bool(b))])) == (
            seq![(k, "false"@)],
            Seq::<Seq<char>>::empty(),
        ),
        b ==> markdown_of(sorted_entries(seq![(k, StatusFieldView::Bool(b))])) == (
            seq![(k, "true"@)],
            Seq::<Seq<char>>::empty(),
        ),
{
    lemma_single_entry_sorted((k, StatusFieldView::Bool(b)));
}

/// Texts and numbers are shown as they are under their own key, a text whose
/// key names a warning is gathered among the warnings instead, and a null
/// shows nothing.
pub proof fn law_plain_entries_show_as_they_are(k: Seq<char>, t: Seq<char>)
    ensures
        !contains_text(k, "warning"@) ==> markdown_of(
            sorted_entries(seq![(k, StatusFieldView::Text(t))]),
        ) == (seq![(k, t)], Seq::<Seq<char>>::empty()),
        contains_text(k, "warning"@) ==> markdown_of(
            sorted_entries(seq![(k, StatusFieldView::Text(t))]),
        ) == (Seq::<(Seq<char>, Seq<char>)>::empty(), seq![t]),
        markdown_of(sorted_entries(seq![(k, StatusFieldView::Number(t))])) == (
            seq![(k, t)],
            Seq::<Seq<char>>::empty(),
        ),
        markdown_of(sorted_entries(seq![(k, StatusFieldView::Null)])) == (
            Seq::<(Seq<char>, Seq<char>)>::empty(),
            Seq::<Seq<char>>::empty(),
        ),
{
    lemma_single_entry_sorted((k, StatusFieldView::Text(t)));
    lemma_single_entry_sorted((k, StatusFieldView::Number(t)));
    lemma_single_entry_sorted((k, StatusFieldView::Null));
}

} // verus!
