use tracedecay_status::convergence::{
    SchemaConvergenceFindingV1, SchemaConvergenceStageV1, SchemaConvergenceStateV1,
};
use tracedecay_status::status_markdown::{status_markdown, StatusEntryV1, StatusFieldValueV1};
use tracedecay_status::mcp_status::{
    age_seconds, authority_audit_read, branch_status, code_index_freshness_projection,
    code_index_status_read, runtime_report_sections, status_sections, storage_mode_name,
    store_kind_name, BranchDiagnosticsV1, BranchEntryV1, StorageMode, StoreKind,
    doctor_report_kind, session_temporal_fallback, DoctorReportAttachmentV1, SessionTemporalProbeV1,
    historical_session_catch_up_state, ready_serving_source, retrieval_serving_for,
    schema_convergence_status, CodeGraphServingReadinessV1, CodeIndexConvergenceParkedV1,
    CodeIndexFreshnessPayloadV1, CodeIndexFreshnessStatusV1, CodeIndexRetrievalServingV1,
    CodeIndexWorktreeFreshnessV1, SessionIngestHealthV1, SessionProviderCoverageStateV1,
    SessionProviderCoverageV1,
};

const BACKLOG_THRESHOLD: u64 = 8 * 1024 * 1024;

fn all_providers() -> Vec<&'static str> {
    vec!["aider", "codex", "cursor", "gemini", "kimi", "opencode"]
}

fn typed_history_providers() -> Vec<String> {
    vec!["kimi".to_owned(), "opencode".to_owned()]
}

fn parked(reason: &str, passes: u64) -> Option<CodeIndexConvergenceParkedV1> {
    Some(CodeIndexConvergenceParkedV1 {
        reason: reason.to_owned(),
        remediation: "restore owner-only access".to_owned(),
        parked_at_micros: 42,
        observed_passes: passes,
        retries_on_wake: true,
    })
}

#[test]
fn a_parked_deterministic_violation_reports_parked_not_warming() {
    let freshness = CodeIndexWorktreeFreshnessV1 {
        worktree_root: "/project".to_owned(),
        staleness_state: Some("parked".to_owned()),
        coverage: "complete".to_owned(),
        parked: parked(
            "code text artifacts root is not owner-private (mode 775, need 700)",
            3,
        ),
        ..Default::default()
    };

    let (status, warning) = code_index_freshness_projection(&freshness);

    assert_eq!(status, "parked");
    let warning = warning.expect("a parked read carries the reason");
    assert!(warning.contains("not owner-private (mode 775, need 700)"));
    assert!(warning.contains("restore owner-only access"));
}

#[test]
fn a_serving_worktree_with_a_parked_newer_build_stays_current_but_warns() {
    let freshness = CodeIndexWorktreeFreshnessV1 {
        worktree_root: "/project".to_owned(),
        latest_generation_id: Some("generation.fixture".to_owned()),
        staleness_state: Some("fresh".to_owned()),
        coverage: "complete".to_owned(),
        parked: parked("code text artifacts root is not owner-private", 1),
        ..Default::default()
    };

    let (status, warning) = code_index_freshness_projection(&freshness);

    assert_eq!(status, "current");
    assert!(warning.expect("the park stays visible").contains("parked"));
}

#[test]
fn an_unparked_incomplete_read_stays_warming() {
    let freshness = CodeIndexWorktreeFreshnessV1 {
        worktree_root: "/project".to_owned(),
        staleness_state: Some("indexing".to_owned()),
        coverage: "complete".to_owned(),
        ..Default::default()
    };

    let (status, warning) = code_index_freshness_projection(&freshness);

    assert_eq!(status, "warming");
    assert!(warning
        .expect("warming names itself")
        .contains("not authoritative"));
}

#[test]
fn a_ready_generation_under_source_verification_is_stale_not_warming() {
    let freshness = CodeIndexWorktreeFreshnessV1 {
        worktree_root: "/project".to_owned(),
        latest_generation_id: Some("generation.fixture".to_owned()),
        staleness_state: Some("verifying".to_owned()),
        coverage: "partial_source_verification".to_owned(),
        ..Default::default()
    };

    let (status, warning) = code_index_freshness_projection(&freshness);

    assert_eq!(status, "stale");
    assert!(warning
        .expect("verification is named")
        .contains("verifies source freshness"));
}

#[test]
fn a_fresh_complete_generation_is_current_without_warning() {
    let freshness = CodeIndexWorktreeFreshnessV1 {
        latest_generation_id: Some("generation.fixture".to_owned()),
        staleness_state: Some("fresh".to_owned()),
        coverage: "complete".to_owned(),
        ..Default::default()
    };
    assert_eq!(code_index_freshness_projection(&freshness), ("current", None));
}

#[test]
fn status_preserves_each_schema_convergence_state() {
    for (state, expected) in [
        (SchemaConvergenceStateV1::PendingSchemaMigration, "in_progress"),
        (
            SchemaConvergenceStateV1::ReleasedShapeConvergenceInProgress,
            "in_progress",
        ),
        (SchemaConvergenceStateV1::Degraded, "degraded"),
        (SchemaConvergenceStateV1::Completed, "completed"),
    ] {
        let finding = SchemaConvergenceFindingV1 {
            store: "profile-sessions".to_owned(),
            stage: SchemaConvergenceStageV1::RegisteredSchema,
            state,
            progress: None,
            started_at_micros: 42,
            degraded_row: (state == SchemaConvergenceStateV1::Degraded)
                .then(|| "observation_id=obs-7".to_owned()),
        };
        assert_eq!(schema_convergence_status(&vec![finding]), expected);
    }
    assert_eq!(schema_convergence_status(&Vec::new()), "completed");
}

#[test]
fn a_degraded_store_outranks_one_still_in_progress() {
    let finding = |state| SchemaConvergenceFindingV1 {
        store: "registry".to_owned(),
        stage: SchemaConvergenceStageV1::RegisteredSchema,
        state,
        progress: None,
        started_at_micros: 1,
        degraded_row: None,
    };
    assert_eq!(
        schema_convergence_status(&vec![
            finding(SchemaConvergenceStateV1::PendingSchemaMigration),
            finding(SchemaConvergenceStateV1::Degraded),
            finding(SchemaConvergenceStateV1::Completed),
        ]),
        "degraded"
    );
}

#[test]
fn historical_backlog_is_typed_daemon_owned_warming() {
    let state = historical_session_catch_up_state(
        &SessionIngestHealthV1 {
            observed_providers: vec!["cursor".into()],
            pending_transcripts: 2,
            pending_bytes: 12_000_000,
            max_transcript_pending_bytes: BACKLOG_THRESHOLD + 1,
            ..SessionIngestHealthV1::default()
        },
        BACKLOG_THRESHOLD,
        &typed_history_providers(),
    );

    assert_eq!(state.status, "warming");
    assert_eq!(state.coverage, "partial");
    assert_eq!(state.authority, "daemon");
    assert_eq!(state.reason, "historical_transcript_backlog");
    assert!(!state.message.contains("sessions ingest"));
}

#[test]
fn historical_status_names_database_and_discovery_backed_providers() {
    let ingest = SessionIngestHealthV1 {
        observed_providers: vec!["kimi".into(), "opencode".into()],
        ..SessionIngestHealthV1::default()
    };
    let state =
        historical_session_catch_up_state(&ingest, BACKLOG_THRESHOLD, &typed_history_providers());

    assert!(state.providers.iter().any(|provider| provider == "kimi"));
    assert!(state.providers.iter().any(|provider| provider == "opencode"));
    assert_eq!(state.status, "warming");
    assert_eq!(state.coverage, "partial");
    assert_eq!(state.reason, "historical_provider_coverage_incomplete");
}

#[test]
fn historical_status_does_not_wait_for_non_coverage_provider_writers() {
    let state = historical_session_catch_up_state(
        &SessionIngestHealthV1 {
            observed_providers: vec!["cursor".into()],
            ..SessionIngestHealthV1::default()
        },
        BACKLOG_THRESHOLD,
        &typed_history_providers(),
    );

    assert_eq!(state.status, "current");
    assert_eq!(state.coverage, "complete");
}

#[test]
fn historical_status_is_current_only_after_every_provider_sweep_completes() {
    let provider_coverage = all_providers()
        .iter()
        .map(|provider| SessionProviderCoverageV1 {
            provider: (*provider).to_owned(),
            state: SessionProviderCoverageStateV1::Complete,
            deferred_units: 0,
        })
        .collect();
    let state = historical_session_catch_up_state(
        &SessionIngestHealthV1 {
            observed_providers: vec!["kimi".into()],
            provider_coverage,
            ..SessionIngestHealthV1::default()
        },
        BACKLOG_THRESHOLD,
        &typed_history_providers(),
    );

    assert_eq!(state.status, "current");
    assert_eq!(state.coverage, "complete");
    assert_eq!(
        state.unobserved_providers,
        ["aider", "codex", "cursor", "gemini", "opencode"]
    );
}

#[test]
fn explicit_partial_provider_sweep_never_reports_current() {
    let provider_coverage = all_providers()
        .iter()
        .map(|provider| SessionProviderCoverageV1 {
            provider: (*provider).to_owned(),
            state: if *provider == "opencode" {
                SessionProviderCoverageStateV1::Partial
            } else {
                SessionProviderCoverageStateV1::Complete
            },
            deferred_units: u64::from(*provider == "opencode"),
        })
        .collect();
    let state = historical_session_catch_up_state(
        &SessionIngestHealthV1 {
            observed_providers: vec!["opencode".into()],
            provider_coverage,
            ..SessionIngestHealthV1::default()
        },
        BACKLOG_THRESHOLD,
        &typed_history_providers(),
    );

    assert_eq!(state.status, "warming");
    assert_eq!(state.coverage, "partial");
}

#[test]
fn historical_status_does_not_fabricate_provider_readiness() {
    let state = historical_session_catch_up_state(
        &SessionIngestHealthV1::default(),
        BACKLOG_THRESHOLD,
        &typed_history_providers(),
    );

    assert_eq!(state.status, "unavailable");
    assert_eq!(state.coverage, "partial");
    assert_eq!(state.reason, "historical_sources_unobserved");
    assert!(state.providers.is_empty());
    assert!(state.unobserved_providers.is_empty());
}

#[test]
fn unobserved_providers_are_sorted_without_repeats() {
    let coverage = |provider: &str, state| SessionProviderCoverageV1 {
        provider: provider.to_owned(),
        state,
        deferred_units: 0,
    };
    let state = historical_session_catch_up_state(
        &SessionIngestHealthV1 {
            observed_providers: vec!["codex".into()],
            provider_coverage: vec![
                coverage("opencode", SessionProviderCoverageStateV1::Unavailable),
                coverage("codex", SessionProviderCoverageStateV1::Complete),
                coverage("aider", SessionProviderCoverageStateV1::Complete),
                coverage("opencode", SessionProviderCoverageStateV1::Complete),
            ],
            ..SessionIngestHealthV1::default()
        },
        BACKLOG_THRESHOLD,
        &typed_history_providers(),
    );
    assert_eq!(state.unobserved_providers, ["aider", "opencode"]);
    assert_eq!(state.status, "warming");
}

#[test]
fn retrieval_serving_reads_the_seated_generation() {
    let freshness = CodeIndexWorktreeFreshnessV1 {
        latest_generation_id: Some("generation.fixture".to_owned()),
        staleness_state: Some("stale".to_owned()),
        rebuild_in_flight: true,
        sealed_at_micros: Some(1_000_000),
        last_reconcile_micros: None,
        ..Default::default()
    };
    assert_eq!(
        retrieval_serving_for(&freshness, 5_500_000),
        CodeIndexRetrievalServingV1::Serving {
            freshness: "last_complete_stale",
            condition: Some("rebuilding"),
            seated_generation_age_seconds: Some(4),
            last_reconcile_age_seconds: None,
        }
    );
    assert_eq!(
        retrieval_serving_for(&CodeIndexWorktreeFreshnessV1::default(), 0),
        CodeIndexRetrievalServingV1::NotServing {
            reason: "generation_rebuilding"
        }
    );
    assert_eq!(age_seconds(Some(10), 0), Some(0));
    assert_eq!(age_seconds(Some(i64::MIN), i64::MAX), Some(i64::MAX / 1_000_000));
}

#[test]
fn status_read_reports_an_unattached_or_unmounted_scheduler() {
    let unattached = code_index_status_read(None, 0);
    assert_eq!(
        unattached.freshness,
        CodeIndexFreshnessStatusV1::Unavailable {
            reason: "code_index_scheduler_authority_not_attached"
        }
    );
    assert_eq!(unattached.serving, CodeIndexRetrievalServingV1::AuthorityUnattached);
    let unmounted = code_index_status_read(Some(&CodeIndexFreshnessPayloadV1::default()), 0);
    assert_eq!(
        unmounted.serving,
        CodeIndexRetrievalServingV1::NotServing {
            reason: "code_index_scheduler_not_mounted"
        }
    );
}

#[test]
fn a_ready_code_graph_names_its_serving_source() {
    let payload = CodeIndexFreshnessPayloadV1 {
        worktrees: vec![CodeIndexWorktreeFreshnessV1 {
            latest_generation_id: Some("generation.fixture".to_owned()),
            staleness_state: Some("fresh".to_owned()),
            coverage: "complete".to_owned(),
            code_graph_serving: Some(CodeGraphServingReadinessV1::Ready),
            source_reference: Some("refs/heads/main".to_owned()),
            source_revision: Some("abc123".to_owned()),
            ..Default::default()
        }],
    };
    let source = ready_serving_source(Some(&payload)).expect("ready source");
    assert_eq!(source.reference, "refs/heads/main");
    assert_eq!(source.revision.as_deref(), Some("abc123"));
    assert!(source.current_source_verified);
    assert_eq!(ready_serving_source(None), None);
}

fn object(status: Option<&str>, fields: u64) -> StatusFieldValueV1 {
    StatusFieldValueV1::Object {
        status: status.map(str::to_owned),
        fields,
    }
}

#[test]
fn status_markdown_exposes_nested_status_without_expanding_other_objects() {
    let rendered = status_markdown(&vec![
        StatusEntryV1 {
            key: "code_index_freshness".to_owned(),
            value: object(Some("stale"), 2),
        },
        StatusEntryV1 {
            key: "branch".to_owned(),
            value: object(None, 2),
        },
    ]);

    assert!(rendered
        .fields
        .contains(&("code_index_freshness.status".to_owned(), "stale".to_owned())));
    assert!(rendered
        .fields
        .contains(&("branch".to_owned(), "{2 field(s)}".to_owned())));
    assert!(!rendered
        .fields
        .iter()
        .any(|(label, text)| label.contains("coverage") || text.contains("coverage")));
}

#[test]
fn status_markdown_orders_fields_by_key_and_gathers_warnings() {
    let entry = |key: &str, value| StatusEntryV1 {
        key: key.to_owned(),
        value,
    };
    let rendered = status_markdown(&vec![
        entry("zeta", StatusFieldValueV1::Bool(true)),
        entry("freshness_warning", StatusFieldValueV1::Text("parked".to_owned())),
        entry("alpha", StatusFieldValueV1::Number("3".to_owned())),
        entry("items", StatusFieldValueV1::Array(4)),
        entry("nothing", StatusFieldValueV1::Null),
        entry("warning_count", StatusFieldValueV1::Number("1".to_owned())),
        entry("a_warning", StatusFieldValueV1::Text("slow".to_owned())),
    ]);
    let labels: Vec<&str> = rendered.fields.iter().map(|(label, _)| label.as_str()).collect();
    assert_eq!(labels, ["alpha", "items", "warning_count", "zeta"]);
    assert_eq!(rendered.fields[1].1, "4 item(s)");
    assert_eq!(rendered.fields[3].1, "true");
    assert_eq!(rendered.warnings, ["slow", "parked"]);
}

fn diagnostics(drifted: bool) -> BranchDiagnosticsV1 {
    BranchDiagnosticsV1 {
        current_branch: Some("feature".to_owned()),
        open_active_branch: Some("main".to_owned()),
        serving_branch: Some("main".to_owned()),
        branches: vec![
            BranchEntryV1 {
                name: "feature".to_owned(),
                is_serving: false,
                parent: Some("develop".to_owned()),
            },
            BranchEntryV1 {
                name: "main".to_owned(),
                is_serving: true,
                parent: Some("trunk".to_owned()),
            },
        ],
        branch_drifted: drifted,
        branch_resolution: "git".to_owned(),
        tracked_branch_count: 2,
        warnings: vec!["branch drifted".to_owned()],
    }
}

#[test]
fn the_serving_branch_is_named_only_while_the_census_serves() {
    let serving = CodeIndexRetrievalServingV1::Serving {
        freshness: "current",
        condition: None,
        seated_generation_age_seconds: None,
        last_reconcile_age_seconds: None,
    };
    let full = branch_status(&diagnostics(true), &serving, true);
    assert_eq!(full.serving_branch.as_deref(), Some("main"));
    assert_eq!(full.current_branch.as_deref(), Some("feature"));
    assert_eq!(full.parent_branch.as_deref(), Some("trunk"));
    assert!(full.branch_drifted);
    assert_eq!(
        full.branch_mismatch,
        Some((
            Some("feature".to_owned()),
            Some("main".to_owned()),
            Some("main".to_owned())
        ))
    );
    assert_eq!(full.warnings, Some(vec!["branch drifted".to_owned()]));

    let rebuilding = CodeIndexRetrievalServingV1::NotServing {
        reason: "generation_rebuilding",
    };
    let compact = branch_status(&diagnostics(false), &rebuilding, false);
    assert_eq!(compact.serving_branch, None);
    assert_eq!(compact.active_branch.as_deref(), Some("main"));
    assert_eq!(compact.current_branch, None);
    assert_eq!(compact.branch_mismatch, None);
    assert_eq!(compact.warnings, None);
}

#[test]
fn runtime_sections_and_audit_reads_follow_the_request() {
    let sections = runtime_report_sections(Some(true), None, None, Some(true));
    assert!(sections.authority_audit);
    assert!(sections.session_temporal_health);
    assert!(!sections.session_ingest_health);
    assert!(sections.doctor_report);
    let none = runtime_report_sections(None, None, None, None);
    assert!(!none.authority_audit && !none.session_temporal_health);

    let unattached = authority_audit_read(None);
    assert_eq!(unattached.ok, None);
    assert_eq!(unattached.reason, Some("authority_store_unavailable"));
    let failed = authority_audit_read(Some(Err("orphan observation".to_owned())));
    assert_eq!(failed.ok, Some(false));
    assert_eq!(failed.reason, Some("authority_invariant_failed"));
    assert_eq!(failed.error.as_deref(), Some("orphan observation"));
    assert_eq!(authority_audit_read(Some(Ok(()))).ok, Some(true));

    assert_eq!(store_kind_name(&StoreKind::CodeProject), "code_project");
    assert_eq!(storage_mode_name(&StorageMode::ProfileSharded), "profile_sharded");
    let sections = status_sections(None, Some(false), None, None, None);
    assert!(!sections.admission_only && !sections.include_branch_diagnostics);
    assert!(sections.include_storage_health && sections.include_staleness);
}

#[test]
fn an_undelivered_probe_or_report_reads_as_its_typed_absence() {
    assert_eq!(doctor_report_kind(DoctorReportAttachmentV1::Read), "observed");
    assert_eq!(doctor_report_kind(DoctorReportAttachmentV1::ReadFailed), "unknown");
    assert_eq!(doctor_report_kind(DoctorReportAttachmentV1::NotAttached), "unsupported");
    assert_eq!(session_temporal_fallback(SessionTemporalProbeV1::Answered), None);
    assert_eq!(
        session_temporal_fallback(SessionTemporalProbeV1::TimedOut),
        Some(("timed_out", Some("session temporal health exceeded deadline")))
    );
    assert_eq!(
        session_temporal_fallback(SessionTemporalProbeV1::StoreUnattached),
        Some(("unavailable", None))
    );
}

#[test]
fn a_worktree_without_a_generation_is_not_served() {
    let payload = CodeIndexFreshnessPayloadV1 {
        worktrees: vec![CodeIndexWorktreeFreshnessV1 {
            staleness_state: Some("indexing".to_owned()),
            ..Default::default()
        }],
    };
    let read = code_index_status_read(Some(&payload), 0);
    assert_eq!(
        read.serving,
        CodeIndexRetrievalServingV1::NotServing {
            reason: "generation_rebuilding"
        }
    );
    let branch = branch_status(
        &BranchDiagnosticsV1 {
            current_branch: None,
            open_active_branch: Some("main".to_owned()),
            serving_branch: Some("main".to_owned()),
            branches: vec![],
            branch_drifted: false,
            branch_resolution: "git".to_owned(),
            tracked_branch_count: 1,
            warnings: vec![],
        },
        &read.serving,
        false,
    );
    assert_eq!(branch.serving_branch, None);
}
