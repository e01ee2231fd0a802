use tracedecay_status::convergence::{
    SchemaConvergenceFindingV1, SchemaConvergenceStageV1, SchemaConvergenceStateV1,
};
use tracedecay_status::convergence_ledger::RegisteredSchemaConvergenceStatus;
use tracedecay_status::doctor::{
    code_generation_retention_record, code_index_mount_read, configuration_read_from_pin, doctor_request_identity,
    epoch_secs, host_integration_read_from_report, language_server_read_from_engine_states,
    now_secs, observability_read_from_model, pending_schema_migration_read,
    permits_synchronous_generation_census, permits_synchronous_table_growth, quick_check_ok,
    retention_secs, semantic_vector_retention_record, temporal_ok, AdmittedDoctorReportV1,
    CodeGenerationCensusV1, CodeIndexMountReadV1, CodeIndexMountStateV1, ConfigurationAuthorityReadV1, ConfigurationDriftV1,
    DoctorCoverageCompletenessV1, DoctorEvidenceStateV1, EngineState, FeedbackCoverageV1,
    FeedbackObservationReadModelV1, HostBundleComponentDoctorStateV1, HostBundleDoctorSummaryV1,
    HostConformanceV1, HostIntegrationReadV1, LanguageServerReadV1, LanguageServerStateV1,
    ObservabilityReadV1, ObservabilityStateV1, SealedStoreCensusV1, SemanticVectorBacklogV1,
    SessionTemporalHealthStatus, StorageTelemetryReadV1, StrandedScopesV1,
    MAX_SYNCHRONOUS_TABLE_GROWTH_STORE_BYTES,
};

#[test]
fn a_cold_configuration_pin_reads_absent() {
    let pinned: Result<u32, String> = Ok(7);
    assert_eq!(
        configuration_read_from_pin(&pinned),
        ConfigurationAuthorityReadV1::Resolved {
            drift: ConfigurationDriftV1::InSync,
            coverage: DoctorCoverageCompletenessV1::Complete,
        }
    );
    let cold: Result<u32, String> = Err("cold".to_owned());
    assert_eq!(configuration_read_from_pin(&cold), ConfigurationAuthorityReadV1::Absent);
}

fn host_report(entries: usize, states: Vec<HostBundleComponentDoctorStateV1>) -> HostBundleDoctorSummaryV1 {
    HostBundleDoctorSummaryV1 {
        native_edit_stop_conformance_entries: entries,
        component_states: states,
    }
}

#[test]
fn host_conformance_separates_protocol_drift_from_repairable_drift() {
    assert_eq!(
        host_integration_read_from_report(&host_report(0, vec![HostBundleComponentDoctorStateV1::Corrupt])),
        HostIntegrationReadV1::Unsupported
    );
    assert_eq!(
        host_integration_read_from_report(&host_report(1, vec![])),
        HostIntegrationReadV1::Absent
    );
    let observed = |conformance| HostIntegrationReadV1::Observed {
        conformance,
        coverage: DoctorCoverageCompletenessV1::Complete,
    };
    assert_eq!(
        host_integration_read_from_report(&host_report(1, vec![HostBundleComponentDoctorStateV1::Drifted, HostBundleComponentDoctorStateV1::OwnershipConflict])),
        observed(HostConformanceV1::ProtocolDrift)
    );
    assert_eq!(
        host_integration_read_from_report(&host_report(2, vec![HostBundleComponentDoctorStateV1::Current, HostBundleComponentDoctorStateV1::ActivationDeferred])),
        observed(HostConformanceV1::Drifted)
    );
    assert_eq!(
        host_integration_read_from_report(&host_report(2, vec![HostBundleComponentDoctorStateV1::Current])),
        observed(HostConformanceV1::Conformant)
    );
}

#[test]
fn the_worst_engine_state_is_reported() {
    assert_eq!(language_server_read_from_engine_states(vec![]), LanguageServerReadV1::Absent);
    let observed = |state| LanguageServerReadV1::Observed {
        state,
        coverage: DoctorCoverageCompletenessV1::Complete,
    };
    assert_eq!(
        language_server_read_from_engine_states(vec![EngineState::Ready, EngineState::Crashed]),
        observed(LanguageServerStateV1::Crashed)
    );
    assert_eq!(
        language_server_read_from_engine_states(vec![EngineState::Disabled, EngineState::Unavailable]),
        observed(LanguageServerStateV1::Unavailable)
    );
    assert_eq!(
        language_server_read_from_engine_states(vec![EngineState::Refreshing, EngineState::Ready]),
        observed(LanguageServerStateV1::Refreshing)
    );
    assert_eq!(
        language_server_read_from_engine_states(vec![EngineState::Ready, EngineState::Ready]),
        observed(LanguageServerStateV1::Ready)
    );
    assert_eq!(
        language_server_read_from_engine_states(vec![EngineState::Ready, EngineState::Starting]),
        observed(LanguageServerStateV1::Available)
    );
}

fn model(total: u64, coverage: FeedbackCoverageV1) -> FeedbackObservationReadModelV1 {
    FeedbackObservationReadModelV1 {
        total_count: total,
        eligible: 0,
        incomplete_boots: 0,
        producer_boot_id: None,
        observed_through_micros: Some(99),
        coverage,
    }
}

#[test]
fn observability_reads_are_truthful() {
    let failed: Result<FeedbackObservationReadModelV1, ()> = Err(());
    assert_eq!(observability_read_from_model(failed), ObservabilityReadV1::Unknown);
    assert_eq!(
        observability_read_from_model::<()>(Ok(model(0, FeedbackCoverageV1::Known))),
        ObservabilityReadV1::Absent
    );
    assert_eq!(
        observability_read_from_model::<()>(Ok(model(3, FeedbackCoverageV1::Stale))),
        ObservabilityReadV1::Observed {
            state: ObservabilityStateV1::Stale,
            total_count: 3,
            last_observed_at_micros: Some(99),
            coverage: DoctorCoverageCompletenessV1::Partial,
        }
    );
    let mut booted = model(0, FeedbackCoverageV1::Sampled);
    booted.producer_boot_id = Some("boot-1".to_owned());
    assert_eq!(
        observability_read_from_model::<()>(Ok(booted)),
        ObservabilityReadV1::Observed {
            state: ObservabilityStateV1::Current,
            total_count: 0,
            last_observed_at_micros: Some(99),
            coverage: DoctorCoverageCompletenessV1::Partial,
        }
    );
}

#[test]
fn pending_schema_migrations_report_queued_running_and_stopped_shards() {
    let evidence = pending_schema_migration_read(&vec![
        (1, RegisteredSchemaConvergenceStatus::Pending),
        (2, RegisteredSchemaConvergenceStatus::Complete),
        (3, RegisteredSchemaConvergenceStatus::Running),
        (
            4,
            RegisteredSchemaConvergenceStatus::Degraded {
                message: "disk full".to_owned(),
            },
        ),
    ]);
    assert_eq!(evidence.len(), 3);
    assert_eq!(evidence[0].shard, 1);
    assert_eq!(evidence[0].state, DoctorEvidenceStateV1::Stale);
    assert_eq!(evidence[0].detail, "queued");
    assert_eq!(evidence[1].shard, 3);
    assert_eq!(evidence[1].detail, "running");
    assert_eq!(
        evidence[1].statement,
        "schema migrations are running; the store stays served meanwhile"
    );
    assert_eq!(evidence[2].state, DoctorEvidenceStateV1::Degraded);
    assert_eq!(evidence[2].detail, "stopped.disk full");
    assert!(pending_schema_migration_read(&vec![]).is_empty());
}

#[test]
fn table_growth_is_previewed_only_within_the_budget() {
    assert_eq!(MAX_SYNCHRONOUS_TABLE_GROWTH_STORE_BYTES, 64 * 1024 * 1024);
    assert!(permits_synchronous_table_growth(&StorageTelemetryReadV1::Observed {
        total_bytes: 64 * 1024 * 1024
    }));
    assert!(!permits_synchronous_table_growth(&StorageTelemetryReadV1::Observed {
        total_bytes: 64 * 1024 * 1024 + 1
    }));
    assert!(!permits_synchronous_table_growth(&StorageTelemetryReadV1::Unknown));
}

#[test]
fn the_generation_census_counts_entries_not_links() {
    assert!(!permits_synchronous_generation_census(&None));
    assert!(permits_synchronous_generation_census(&Some(vec![])));
    let mut entries = vec![Some(false); 4096];
    entries.extend(vec![Some(true); 10]);
    assert!(permits_synchronous_generation_census(&Some(entries.clone())));
    entries.push(Some(false));
    assert!(!permits_synchronous_generation_census(&Some(entries)));
    assert!(!permits_synchronous_generation_census(&Some(vec![Some(false), None])));
}

#[test]
fn semantic_retention_needs_every_configured_root_published() {
    let backlog = SemanticVectorBacklogV1 {
        pending: 1,
        ready: 2,
        published: 5,
        cancelled: 3,
    };
    assert_eq!(semantic_vector_retention_record(backlog, 6), None);
    let record = semantic_vector_retention_record(backlog, 2).expect("published covers roots");
    assert_eq!(record.observed_non_configured_published_generation_count, 3);
    assert_eq!(record.pending_generation_count, 1);
    assert_eq!(record.cancelled_generation_count, 3);
}

fn census() -> CodeGenerationCensusV1 {
    CodeGenerationCensusV1 {
        superseded_generation_count: 2,
        superseded_generation_bytes: 200,
        collectable_generation_count: 1,
        collectable_generation_bytes: 100,
        stranded_scopes: Some(StrandedScopesV1 { count: 3, bytes: 30 }),
        sealed: Some(SealedStoreCensusV1 {
            superseded_count: 4,
            superseded_bytes: 40,
            abandoned_staging_count: 5,
            abandoned_staging_bytes: 50,
            head_bytes: 60,
        }),
        live_graph_container_bytes: 70,
        deferred_native_retirements: Some(8),
    }
}

#[test]
fn withheld_retention_figures_read_zero_under_partial_coverage() {
    let (record, completeness) = code_generation_retention_record(&census(), false);
    assert_eq!(completeness, DoctorCoverageCompletenessV1::Complete);
    assert_eq!(record.collectable_generation_count, 1);
    assert_eq!(record.stranded_scope_bytes, 30);
    assert_eq!(record.superseded_sealed_generation_bytes, 40);
    assert_eq!(record.deferred_native_retirement_count, 8);

    let (record, completeness) = code_generation_retention_record(&census(), true);
    assert_eq!(completeness, DoctorCoverageCompletenessV1::Partial);
    assert_eq!(record.collectable_generation_count, 0);
    assert_eq!(record.stranded_scope_count, 0);
    assert_eq!(record.superseded_sealed_generation_count, 0);
    assert_eq!(record.abandoned_sealed_staging_count, 5);
    assert_eq!(record.superseded_generation_count, 2);

    let mut unproven = census();
    unproven.sealed = None;
    unproven.deferred_native_retirements = None;
    let (record, completeness) = code_generation_retention_record(&unproven, false);
    assert_eq!(completeness, DoctorCoverageCompletenessV1::Partial);
    assert_eq!(record.sealed_head_generation_bytes, 0);
    assert_eq!(record.deferred_native_retirement_count, 0);
}

#[test]
fn runtime_signals_map_without_fabricating_health() {
    assert_eq!(retention_secs(Some(2)), 172_800);
    assert_eq!(retention_secs(None), i64::MAX);
    assert_eq!(retention_secs(Some(u64::MAX)), i64::MAX);
    assert_eq!(retention_secs(Some(106_751_991_167_300)), 106_751_991_167_300 * 86_400);
    assert_eq!(retention_secs(Some(106_751_991_167_301)), i64::MAX);
    let clean: Result<Option<&str>, ()> = Ok(None);
    let problem: Result<Option<&str>, ()> = Ok(Some("page 4 corrupt"));
    let failed: Result<Option<&str>, ()> = Err(());
    assert_eq!(quick_check_ok(&clean), Some(true));
    assert_eq!(quick_check_ok(&problem), Some(false));
    assert_eq!(quick_check_ok(&failed), None);
    assert_eq!(temporal_ok(SessionTemporalHealthStatus::Complete, true), Some(true));
    assert_eq!(temporal_ok(SessionTemporalHealthStatus::Complete, false), Some(false));
    assert_eq!(temporal_ok(SessionTemporalHealthStatus::Locked, true), None);
}

#[test]
fn doctor_request_identity_expires_after_its_horizon() {
    let identity = doctor_request_identity(1_000, "request.daemon.doctor.7");
    assert_eq!(identity.expires_at_micros, 30_001_000);
    assert_eq!(identity.grant_id, "grant.daemon.doctor.request.daemon.doctor.7");
    assert_eq!(identity.cancellation_id, "cancel.daemon.doctor.request.daemon.doctor.7");
    assert_eq!(doctor_request_identity(i64::MAX - 5, "x").expires_at_micros, i64::MAX);
}

#[test]
fn clock_readings_map_to_epoch_seconds() {
    assert_eq!(epoch_secs(None), 0);
    assert_eq!(epoch_secs(Some(12)), 12);
    assert_eq!(epoch_secs(Some(u64::MAX)), i64::MAX);
    assert!(now_secs() > 1_600_000_000);
}

#[test]
fn an_admitted_report_carries_its_evidence_and_findings() {
    let finding = SchemaConvergenceFindingV1 {
        store: "registry".to_owned(),
        stage: SchemaConvergenceStageV1::RegisteredSchema,
        state: SchemaConvergenceStateV1::Completed,
        progress: None,
        started_at_micros: 1,
        degraded_row: None,
    };
    let admitted = AdmittedDoctorReportV1::<&str, u32>::new("report");
    assert!(admitted.table_growth_evidence.is_empty());
    assert!(admitted.schema_convergences.is_empty());
    let admitted = admitted
        .with_table_growth_evidence(vec![1, 2])
        .with_schema_convergences(vec![finding.clone()]);
    assert_eq!(admitted.report, "report");
    assert_eq!(admitted.table_growth_evidence, vec![1, 2]);
    assert_eq!(admitted.schema_convergences, vec![finding]);
}

#[test]
fn code_index_mount_reads_follow_the_scheduler_registry() {
    let observed = |state| CodeIndexMountReadV1::Observed {
        state,
        coverage: DoctorCoverageCompletenessV1::Complete,
    };
    assert_eq!(code_index_mount_read(false, true, None), observed(CodeIndexMountStateV1::Unmounted));
    assert_eq!(code_index_mount_read(true, true, None), observed(CodeIndexMountStateV1::Mounted));
    assert_eq!(code_index_mount_read(true, false, None), observed(CodeIndexMountStateV1::Indexing));
    assert_eq!(
        code_index_mount_read(
            true,
            false,
            Some(("root is not owner-private".to_owned(), "restore owner-only access".to_owned()))
        ),
        CodeIndexMountReadV1::Parked {
            reason: "root is not owner-private; restore owner-only access".to_owned(),
            coverage: DoctorCoverageCompletenessV1::Complete,
        }
    );
}
