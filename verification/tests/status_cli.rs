use tracedecay_status::convergence::{
    SchemaConvergenceFindingV1, SchemaConvergenceProgressV1, SchemaConvergenceStageV1,
    SchemaConvergenceStateV1,
};
use tracedecay_status::project_open::{
    ProjectOpenStatusReasonV1, ProjectOpenStatusStateV1, ProjectOpenStatusV1,
};
use tracedecay_status::status_cli::{
    default_status_command_deadline, format_memory_status_report, online_decorations,
    project_open_line, project_open_preempts_status, FactCommitOwnerV1, MemoryAlgebraStatusV1,
    MemoryFeedbackFunnelV1, MemoryStatusV1,
    schema_convergence_line, should_fetch_online_status_embellishments, should_print_status_logo,
    status_command_deadline_from, status_server_request_budget, OnlineRefresh, OnlineRefreshPlan,
    OnlineStatusCache, StatusCommandError, COUNTRY_FLAGS_MAX_AGE_SECS,
    MAX_STATUS_COMMAND_DEADLINE_MS, WORLDWIDE_TOTAL_MAX_AGE_SECS,
};

#[test]
fn compact_lines_preserve_convergence_progress_and_project_open_reason() {
    let convergence = SchemaConvergenceFindingV1 {
        store: "profile-sessions".to_owned(),
        stage: SchemaConvergenceStageV1::RegisteredSchema,
        state: SchemaConvergenceStateV1::ReleasedShapeConvergenceInProgress,
        progress: Some(SchemaConvergenceProgressV1::Rows {
            done: 12,
            remaining: 3,
        }),
        started_at_micros: 42,
        degraded_row: None,
    };
    assert_eq!(
        schema_convergence_line(&convergence),
        "schema convergence: profile-sessions registered_schema \
         released_shape_convergence_in_progress, rows 12 done / 3 remaining, started_at=42"
    );

    let project_open = ProjectOpenStatusV1 {
        state: ProjectOpenStatusStateV1::Stalled,
        reason: ProjectOpenStatusReasonV1::DeferredRepositoryDiscovery,
        retry_after_ms: Some(250),
        detail: Some("git probe exceeded its deadline".to_owned()),
    };
    assert_eq!(
        project_open_line(&project_open),
        "project open: deferred repository discovery, retry after 250 ms: \
         git probe exceeded its deadline"
    );
}

#[test]
fn online_refresh_plan_follows_cache_age() {
    let mut config = OnlineStatusCache::default();
    let now = 10_000;
    config.last_worldwide_fetch_at = now - WORLDWIDE_TOTAL_MAX_AGE_SECS + 1;
    config.last_flags_fetch_at = now - COUNTRY_FLAGS_MAX_AGE_SECS + 1;
    let plan = OnlineRefreshPlan::for_cache(&config, now);
    assert!(!plan.is_needed(), "fresh caches start no refresh: {plan:?}");

    config.last_worldwide_fetch_at = now - WORLDWIDE_TOTAL_MAX_AGE_SECS;
    let plan = OnlineRefreshPlan::for_cache(&config, now);
    assert!(plan.worldwide_total && !plan.country_flags);

    config.last_flags_fetch_at = 0;
    let plan = OnlineRefreshPlan::for_cache(&config, now);
    assert!(plan.worldwide_total && plan.country_flags);
}

#[test]
fn status_deadline_boundaries_preserve_override_and_maximum() {
    assert_eq!(
        status_command_deadline_from(Some("0")).expect("zero falls back"),
        45_000
    );
    assert_eq!(
        status_command_deadline_from(Some("14999")).expect("sub-margin override"),
        14_999
    );
    assert_eq!(status_server_request_budget(14_999), 0);
    assert_eq!(
        status_command_deadline_from(Some("86400000")).expect("24h maximum"),
        86_400_000
    );
    assert!(
        status_command_deadline_from(Some("86400001")).is_err(),
        "an override above 24h must fail closed"
    );
}

#[test]
fn unparseable_and_absent_overrides_fall_back_to_the_default_budget() {
    assert_eq!(default_status_command_deadline(), 45_000);
    assert_eq!(status_command_deadline_from(None), Ok(45_000));
    assert_eq!(status_command_deadline_from(Some("soon")), Ok(45_000));
    assert_eq!(status_command_deadline_from(Some("-5")), Ok(45_000));
    assert_eq!(status_command_deadline_from(Some("+120")), Ok(120));
    assert_eq!(
        status_command_deadline_from(Some("99999999999999999999999")),
        Ok(45_000)
    );
    assert_eq!(
        status_command_deadline_from(Some("86400001")),
        Err(StatusCommandError::DeadlineOverrideTooLarge)
    );
    assert_eq!(
        StatusCommandError::DeadlineOverrideTooLarge.message(),
        "TRACEDECAY_STATUS_DEADLINE_MS exceeds the supported monotonic deadline range"
    );
    assert_eq!(MAX_STATUS_COMMAND_DEADLINE_MS, 86_400_000);
}

#[test]
fn the_server_deadline_leaves_the_response_margin() {
    assert_eq!(status_server_request_budget(45_000), 30_000);
    assert_eq!(status_server_request_budget(40_000), 25_000);
    assert_eq!(status_server_request_budget(15_000), 0);
    assert_eq!(status_server_request_budget(86_400_000), 30_000);
    for budget in [15_001, 20_000, 45_000, 50_000] {
        assert!(status_server_request_budget(budget) + 15_000 <= budget);
    }
}

#[test]
fn answered_reads_update_the_cache_and_unanswered_reads_leave_it() {
    let mut config = OnlineStatusCache::default();
    let fresh = OnlineRefresh {
        worldwide_total: Some(42),
        country_flags: vec!["🇳🇴".to_owned()],
    };
    assert!(fresh.apply(&mut config, 1_000));
    assert_eq!(config.last_worldwide_total, 42);
    assert_eq!(config.last_worldwide_fetch_at, 1_000);
    assert_eq!(config.cached_country_flags, ["🇳🇴"]);
    assert_eq!(config.last_flags_fetch_at, 1_000);

    assert!(
        !OnlineRefresh::default().apply(&mut config, 2_000),
        "unanswered reads must not touch the cache or its timestamps"
    );
    assert_eq!(config.last_worldwide_fetch_at, 1_000);
    assert_eq!(config.last_flags_fetch_at, 1_000);

    let plan = OnlineRefreshPlan::for_cache(&config, 1_000);
    assert!(!plan.is_needed(), "a cache refreshed now is not due now");
}

#[test]
fn decorations_show_only_on_a_terminal_with_uploads_enabled() {
    assert!(should_print_status_logo(false, true));
    assert!(!should_print_status_logo(true, true));
    assert!(!should_print_status_logo(false, false));
    assert!(should_fetch_online_status_embellishments(true));
    assert!(!should_fetch_online_status_embellishments(false));

    let cache = OnlineStatusCache {
        last_worldwide_total: 9,
        last_worldwide_fetch_at: 0,
        cached_country_flags: vec!["🇮🇸".to_owned()],
        last_flags_fetch_at: 9_000,
    };
    let shown = online_decorations(true, true, &cache, 10_000);
    assert!(shown.show_online);
    assert_eq!(shown.worldwide, Some(9));
    assert_eq!(shown.country_flags, ["🇮🇸"]);
    assert_eq!(
        shown.refresh,
        Some(OnlineRefreshPlan {
            worldwide_total: true,
            country_flags: false,
        })
    );

    let hidden = online_decorations(true, false, &cache, 10_000);
    assert!(!hidden.show_online);
    assert_eq!(hidden.worldwide, None);
    assert!(hidden.country_flags.is_empty());
    assert_eq!(hidden.refresh, None);
}

#[test]
fn a_degraded_convergence_line_names_its_row() {
    let degraded = SchemaConvergenceFindingV1 {
        store: "registry".to_owned(),
        stage: SchemaConvergenceStageV1::RuntimeWriterLedger,
        state: SchemaConvergenceStateV1::Degraded,
        progress: Some(SchemaConvergenceProgressV1::Pages {
            done: 1,
            remaining: 0,
        }),
        started_at_micros: -7,
        degraded_row: Some("observation_id=obs-7".to_owned()),
    };
    let line = schema_convergence_line(&degraded);
    assert!(line.starts_with(
        "schema convergence: registry runtime_writer_ledger degraded, pages 1 done / 0 remaining"
    ));
    assert!(line.contains("started_at=-7"));
    assert!(line.contains("observation_id=obs-7"));
}

#[test]
fn the_memory_report_lists_every_figure_on_its_own_line() {
    let status = MemoryStatusV1 {
        owner: FactCommitOwnerV1::Project {
            project_id: "project-7".to_owned(),
        },
        fact_count: 12,
        entity_count: 5,
        algebra: MemoryAlgebraStatusV1 {
            name: "hrr".to_owned(),
            hrr_dim: 1024,
            estimated_capacity: 300,
        },
        below_default_recall_threshold_count: 2,
        helpful_count: 3,
        unhelpful_count: 1,
        trust_0_025_count: 0,
        trust_025_050_count: 1,
        trust_050_075_count: 4,
        trust_075_100_count: 7,
        feedback_funnel: MemoryFeedbackFunnelV1 {
            retrieval_count_total: 40,
            access_count_total: 30,
            retrieved_fact_count: 9,
            rated_fact_count: 4,
            feedback_total: 4,
            seen_to_feedback_ratio: Some(10),
        },
    };
    assert_eq!(
        format_memory_status_report(&status),
        "Holographic memory status\n\
         owner: project:project-7\n\
         facts: 12\n\
         entities: 5\n\
         algebra: hrr\n\
         hrr dim: 1024\n\
         estimated capacity: 300\n\
         below recall floor: 2\n\
         helpful feedback: 3\n\
         unhelpful feedback: 1\n\
         trust buckets: <0.25=0  0.25-0.50=1  0.50-0.75=4  0.75-1.00=7\n\
         feedback funnel: retrieved=40 accessed=30 facts_retrieved=9 facts_rated=4 feedback_total=4 seen:feedback=10:1\n"
    );
    let mut profile = status;
    profile.owner = FactCommitOwnerV1::Profile;
    profile.feedback_funnel.seen_to_feedback_ratio = None;
    let report = format_memory_status_report(&profile);
    assert!(report.contains("owner: profile\n"));
    assert!(report.ends_with("seen:feedback=n/a\n"));
}

#[test]
fn an_unfinished_project_open_preempts_the_status_table() {
    let open = |state| ProjectOpenStatusV1 {
        state,
        reason: ProjectOpenStatusReasonV1::Converging,
        retry_after_ms: None,
        detail: None,
    };
    assert!(project_open_preempts_status(Some(&open(ProjectOpenStatusStateV1::Converging))));
    assert!(project_open_preempts_status(Some(&open(ProjectOpenStatusStateV1::Stalled))));
    assert!(!project_open_preempts_status(Some(&open(ProjectOpenStatusStateV1::Completed))));
    assert!(!project_open_preempts_status(None));
    assert_eq!(
        project_open_line(&open(ProjectOpenStatusStateV1::Converging)),
        "project open: converging"
    );
}

#[test]
fn a_refresh_keeps_only_the_reads_its_plan_called_for() {
    let plan = OnlineRefreshPlan {
        worldwide_total: true,
        country_flags: false,
    };
    let refresh = plan.refresh_from(Some(7), vec!["🇮🇸".to_owned()]);
    assert_eq!(refresh.worldwide_total, Some(7));
    assert!(refresh.country_flags.is_empty());
    let flags_only = OnlineRefreshPlan {
        worldwide_total: false,
        country_flags: true,
    }
    .refresh_from(Some(7), vec!["🇮🇸".to_owned()]);
    assert_eq!(flags_only.worldwide_total, None);
    assert_eq!(flags_only.country_flags, ["🇮🇸"]);
}
