use tracedecay_status::dashboard::{
    admit_dashboard_host_and_origin, automation_mode, dashboard_admission_decision,
    dashboard_http_request_deadline_micros, dashboard_request_identity,
    is_profile_owned_automation_skills_route, is_selected_project_event_delivery_ack, normalize_path,
    project_gateway_decision, project_request_rewrite, resolve_lcm_store_for_layout,
    selected_project_application_read, storage_mode_label, validate_dashboard_host,
    AutomationReconcileScope, AutomationSchedulerReconcileOutcome, DashboardAdmissionRefusalV1,
    DashboardConfigError, DashboardTestProjectGraphsV1, ParsedAuthorityV1, ParsedOriginV1,
    ProjectGatewayDecisionV1, RequestMethod, SelectedProjectApplicationRead,
    UncachedProjectReconcileOutcome, DASHBOARD_AUTOMATION_RUN_REQUEST_DEADLINE_MICROS,
    DASHBOARD_CODE_GRAPH_REQUEST_DEADLINE_MICROS, DEFAULT_PORT,
};
use tracedecay_status::mcp_status::StorageMode;

fn workflow_reads() -> Vec<String> {
    vec!["list-definitions".to_owned(), "get-run".to_owned()]
}

fn work_reads() -> Vec<String> {
    vec!["views".to_owned(), "list".to_owned()]
}

#[test]
fn automation_run_routes_receive_the_backend_sized_deadline_budget() {
    assert_eq!(
        dashboard_http_request_deadline_micros("/api/application/retained/fact_store_curate"),
        DASHBOARD_AUTOMATION_RUN_REQUEST_DEADLINE_MICROS,
    );
    assert_eq!(
        dashboard_http_request_deadline_micros("/api/automation/jobs/nightly-review/run"),
        DASHBOARD_AUTOMATION_RUN_REQUEST_DEADLINE_MICROS,
    );
    assert_eq!(
        dashboard_http_request_deadline_micros(
            "/api/projects/project-7/application/retained/fact_store_curate"
        ),
        DASHBOARD_AUTOMATION_RUN_REQUEST_DEADLINE_MICROS,
    );
    assert_eq!(
        dashboard_http_request_deadline_micros("/api/automation/runs"),
        DASHBOARD_CODE_GRAPH_REQUEST_DEADLINE_MICROS,
    );
    assert_eq!(
        dashboard_http_request_deadline_micros("/api/plugins/holographic/status"),
        DASHBOARD_CODE_GRAPH_REQUEST_DEADLINE_MICROS,
    );
    for near_match in [
        "/api/application/retained/fact_store_curate/extra",
        "/api/application/retained/fact_store_curateish",
        "/api/projects//application/retained/fact_store_curate",
        "/api/projects/project-7/application/retained/fact_store_curate/extra",
        "/api/automation/run/session-reflection",
        "/api/automation/run/skill-writing",
        "/api/projects/project-7/automation/run/session-reflection",
        "/api/projects/project-7/automation/run/skill-writing",
        "/api/projects/project-7/automation/run/skill-writer",
        "/api/projects/project-7/automation/runs",
    ] {
        assert_eq!(
            dashboard_http_request_deadline_micros(near_match),
            DASHBOARD_CODE_GRAPH_REQUEST_DEADLINE_MICROS,
            "near-match route must retain the ordinary deadline: {near_match}",
        );
    }
}

#[test]
fn deadline_budgets_are_thirty_seconds_and_five_minutes() {
    assert_eq!(DASHBOARD_CODE_GRAPH_REQUEST_DEADLINE_MICROS, 30_000_000);
    assert_eq!(DASHBOARD_AUTOMATION_RUN_REQUEST_DEADLINE_MICROS, 300_000_000);
    assert_eq!(
        dashboard_http_request_deadline_micros("/api/automation/jobs/a/b/run"),
        DASHBOARD_CODE_GRAPH_REQUEST_DEADLINE_MICROS
    );
    assert_eq!(
        dashboard_http_request_deadline_micros("/api/automation/jobs//run"),
        DASHBOARD_CODE_GRAPH_REQUEST_DEADLINE_MICROS
    );
    assert_eq!(
        dashboard_http_request_deadline_micros("/api/automation/jobs/run"),
        DASHBOARD_CODE_GRAPH_REQUEST_DEADLINE_MICROS
    );
}

#[test]
fn dashboard_bindings_are_loopback_only() {
    assert_eq!(
        validate_dashboard_host("127.0.0.1").expect("IPv4 loopback"),
        "127.0.0.1"
    );
    assert_eq!(
        validate_dashboard_host("localhost").expect("localhost"),
        "localhost"
    );
    assert_eq!(validate_dashboard_host("::1").expect("IPv6 loopback"), "::1");
    assert!(validate_dashboard_host("0.0.0.0").is_err());
}

#[test]
fn bind_hosts_are_trimmed_and_case_folded() {
    assert_eq!(validate_dashboard_host("  LocalHost \n"), Ok("LocalHost"));
    assert_eq!(
        validate_dashboard_host(" 192.168.1.4 "),
        Err(DashboardConfigError::NonLoopbackHost {
            host: "192.168.1.4".to_owned()
        })
    );
    assert!(validate_dashboard_host("localhost.example").is_err());
    assert_eq!(DEFAULT_PORT, 7341);
}

#[test]
fn a_selected_project_answers_feedback_and_work_reads_and_nothing_else_by_post() {
    assert!(is_selected_project_event_delivery_ack(
        RequestMethod::Post,
        "events/delivery-ack"
    ));
    assert!(!is_selected_project_event_delivery_ack(
        RequestMethod::Get,
        "events/delivery-ack"
    ));
    let workflow = workflow_reads();
    let work = work_reads();
    for tail in ["feedback/get", "feedback/expand", "feedback/list"] {
        assert_eq!(
            selected_project_application_read(RequestMethod::Post, tail, &workflow, &work),
            Some(SelectedProjectApplicationRead::Feedback)
        );
        assert_eq!(
            selected_project_application_read(RequestMethod::Get, tail, &workflow, &work),
            None
        );
    }
    assert_eq!(
        selected_project_application_read(RequestMethod::Post, "work/views", &workflow, &work),
        Some(SelectedProjectApplicationRead::Work)
    );
    for segment in &work {
        let tail = format!("work/{segment}");
        assert_eq!(
            selected_project_application_read(RequestMethod::Post, &tail, &workflow, &work),
            Some(SelectedProjectApplicationRead::Work),
            "{tail} is a read-only Work operation a selected project may read"
        );
        assert_eq!(
            selected_project_application_read(RequestMethod::Get, &tail, &workflow, &work),
            None
        );
    }
    for command in ["work/create", "work/close"] {
        assert_eq!(
            selected_project_application_read(RequestMethod::Post, command, &workflow, &work),
            None,
            "{command} must not be answerable for a selected project"
        );
    }
    assert_eq!(
        selected_project_application_read(RequestMethod::Post, "feedback/status", &workflow, &work),
        None
    );
    assert_eq!(
        selected_project_application_read(
            RequestMethod::Post,
            "application/workflow/list-definitions",
            &workflow,
            &work
        ),
        Some(SelectedProjectApplicationRead::Workflow)
    );
    assert_eq!(
        selected_project_application_read(
            RequestMethod::Post,
            "application/workflow/start-run",
            &workflow,
            &work
        ),
        None
    );
}

#[test]
fn selected_project_reads_name_themselves_and_their_family() {
    assert_eq!(SelectedProjectApplicationRead::Feedback.label(), "feedback");
    assert_eq!(SelectedProjectApplicationRead::Work.label(), "Work");
    assert_eq!(SelectedProjectApplicationRead::Workflow.label(), "Workflow");
    assert_eq!(SelectedProjectApplicationRead::Workflow.family(), "application/");
}

#[test]
fn non_active_projects_are_read_only_through_the_gateway() {
    let workflow = workflow_reads();
    let work = work_reads();
    assert!(is_profile_owned_automation_skills_route("automation/skills"));
    assert!(is_profile_owned_automation_skills_route("automation/skills/x"));
    assert!(!is_profile_owned_automation_skills_route("automation/skillset"));
    assert_eq!(
        project_gateway_decision(Some("a"), "b", RequestMethod::Get, "automation/skills", &workflow, &work),
        ProjectGatewayDecisionV1::NotProjectScoped
    );
    assert_eq!(
        project_gateway_decision(Some("a"), "b", RequestMethod::Delete, "memory/facts/1", &workflow, &work),
        ProjectGatewayDecisionV1::ReadOnlyProject
    );
    assert_eq!(
        project_gateway_decision(None, "b", RequestMethod::Post, "memory/facts", &workflow, &work),
        ProjectGatewayDecisionV1::ReadOnlyProject
    );
    assert_eq!(
        project_gateway_decision(Some("b"), "b", RequestMethod::Delete, "memory/facts/1", &workflow, &work),
        ProjectGatewayDecisionV1::Forward {
            application_read: None
        }
    );
    assert_eq!(
        project_gateway_decision(Some("a"), "b", RequestMethod::Head, "status", &workflow, &work),
        ProjectGatewayDecisionV1::Forward {
            application_read: None
        }
    );
    assert_eq!(
        project_gateway_decision(Some("a"), "b", RequestMethod::Post, "work/views", &workflow, &work),
        ProjectGatewayDecisionV1::Forward {
            application_read: Some(SelectedProjectApplicationRead::Work)
        }
    );
    assert_eq!(
        project_gateway_decision(Some("a"), "b", RequestMethod::Post, "events/delivery-ack", &workflow, &work),
        ProjectGatewayDecisionV1::Forward {
            application_read: None
        }
    );
}

#[test]
fn project_requests_are_rewritten_under_their_family() {
    assert_eq!(
        project_request_rewrite("status", Some("full=true"), None),
        Some("/api/status?full=true".to_owned())
    );
    assert_eq!(
        project_request_rewrite("work/views", None, Some(SelectedProjectApplicationRead::Work)),
        Some("/views".to_owned())
    );
    assert_eq!(
        project_request_rewrite(
            "application/workflow/list-definitions",
            Some("a=1"),
            Some(SelectedProjectApplicationRead::Workflow)
        ),
        Some("/workflow/list-definitions?a=1".to_owned())
    );
    assert_eq!(
        project_request_rewrite("feedback/get", None, Some(SelectedProjectApplicationRead::Work)),
        None
    );
}

fn authority(host: &str, port: Option<u16>, text: &str) -> Option<ParsedAuthorityV1> {
    Some(ParsedAuthorityV1 {
        host: host.to_owned(),
        port,
        text: text.to_owned(),
    })
}

#[test]
fn admission_requires_the_bound_loopback_host_and_a_same_origin() {
    assert_eq!(
        dashboard_admission_decision(7341, &None, &None),
        Err(DashboardAdmissionRefusalV1::InvalidHost)
    );
    assert_eq!(
        dashboard_admission_decision(7341, &authority("127.0.0.1", Some(7341), "127.0.0.1:7341"), &None),
        Ok(())
    );
    assert_eq!(
        dashboard_admission_decision(7341, &authority("[::1]", Some(7341), "[::1]:7341"), &None),
        Ok(())
    );
    assert_eq!(
        dashboard_admission_decision(7341, &authority("127.0.0.1", Some(80), "127.0.0.1:80"), &None),
        Err(DashboardAdmissionRefusalV1::HostNotBoundLoopback)
    );
    assert_eq!(
        dashboard_admission_decision(7341, &authority("evil.test", Some(7341), "evil.test:7341"), &None),
        Err(DashboardAdmissionRefusalV1::HostNotBoundLoopback)
    );
    let host = authority("localhost", Some(7341), "localhost:7341");
    assert_eq!(
        dashboard_admission_decision(7341, &host, &Some(None)),
        Err(DashboardAdmissionRefusalV1::InvalidOrigin)
    );
    let same = ParsedOriginV1 {
        scheme: Some("http".to_owned()),
        authority: Some("LOCALHOST:7341".to_owned()),
    };
    assert_eq!(dashboard_admission_decision(7341, &host, &Some(Some(same))), Ok(()));
    let https = ParsedOriginV1 {
        scheme: Some("https".to_owned()),
        authority: Some("localhost:7341".to_owned()),
    };
    assert_eq!(
        dashboard_admission_decision(7341, &host, &Some(Some(https))),
        Err(DashboardAdmissionRefusalV1::OriginMismatch)
    );
    assert_eq!(
        DashboardAdmissionRefusalV1::OriginMismatch.detail(),
        "Origin must match the dashboard"
    );
}

#[test]
fn admission_parses_the_host_and_origin_headers() {
    assert_eq!(
        admit_dashboard_host_and_origin(7341, None, None),
        Err(DashboardAdmissionRefusalV1::MissingHost)
    );
    assert_eq!(admit_dashboard_host_and_origin(7341, Some("127.0.0.1:7341"), None), Ok(()));
    assert_eq!(admit_dashboard_host_and_origin(7341, Some("[::1]:7341"), None), Ok(()));
    assert_eq!(
        admit_dashboard_host_and_origin(7341, Some("localhost:7341"), Some("http://localhost:7341")),
        Ok(())
    );
    assert_eq!(
        admit_dashboard_host_and_origin(7341, Some("localhost:7341"), Some("http://localhost:9999")),
        Err(DashboardAdmissionRefusalV1::OriginMismatch)
    );
    assert_eq!(
        admit_dashboard_host_and_origin(7341, Some("localhost"), None),
        Err(DashboardAdmissionRefusalV1::HostNotBoundLoopback)
    );
    assert_eq!(
        admit_dashboard_host_and_origin(7341, Some("bad host"), None),
        Err(DashboardAdmissionRefusalV1::InvalidHost)
    );
    assert_eq!(
        admit_dashboard_host_and_origin(7341, Some("127.0.0.1:7341"), Some("not a uri")),
        Err(DashboardAdmissionRefusalV1::InvalidOrigin)
    );
}

#[test]
fn request_identity_names_the_clock_reading_and_sequence() {
    let id = dashboard_request_identity(1_700_000_000_000_000, 5, "/api/status");
    assert_eq!(id.request_id, "request.dashboard.http.1700000000000000.5");
    assert_eq!(id.cancellation_id, "cancel.dashboard.http.1700000000000000.5");
    assert_eq!(id.deadline_at_micros, 1_700_000_030_000_000);
    let curate = dashboard_request_identity(
        -3,
        0,
        "/api/application/retained/fact_store_curate",
    );
    assert_eq!(curate.request_id, "request.dashboard.http.-3.0");
    assert_eq!(curate.deadline_at_micros, 299_999_997);
    let late = dashboard_request_identity(i64::MAX - 1, 1, "/api/status");
    assert_eq!(late.deadline_at_micros, i64::MAX);
}

#[test]
fn capabilities_report_the_automation_mode() {
    assert_eq!(automation_mode(true, true, false), (true, "standalone_backend"));
    assert_eq!(automation_mode(true, true, true), (true, "delegated_host"));
    assert_eq!(automation_mode(true, false, true), (false, "disabled"));
    assert_eq!(automation_mode(false, true, false), (false, "disabled"));
}

#[test]
fn lcm_store_selection_prefers_the_registered_session_store() {
    let registered = resolve_lcm_store_for_layout(
        Some("/profile/sessions.db".to_owned()),
        &StorageMode::ProfileSharded,
        "/project/sessions.db".to_owned(),
    );
    assert!(registered.registered);
    assert_eq!(registered.path, "/profile/sessions.db");
    assert_eq!(registered.scope, "profile_sharded");
    let fallback = resolve_lcm_store_for_layout(
        None,
        &StorageMode::ProjectLocal,
        "/project/sessions.db".to_owned(),
    );
    assert!(!fallback.registered);
    assert_eq!(fallback.path, "/project/sessions.db");
    assert_eq!(fallback.scope, "unavailable");
    assert_eq!(storage_mode_label(&StorageMode::ProjectLocal), "project_local");
}

#[test]
fn reconcile_reports_use_snake_case_names() {
    assert_eq!(AutomationSchedulerReconcileOutcome::RunningNotified.as_str(), "running_notified");
    assert_eq!(AutomationSchedulerReconcileOutcome::OwnerUnavailable.as_str(), "owner_unavailable");
    assert_eq!(AutomationReconcileScope::Profile.as_str(), "profile");
    assert_eq!(
        UncachedProjectReconcileOutcome::DeferredUntilProjectStartup.as_str(),
        "deferred_until_project_startup"
    );
}

#[test]
fn a_registered_test_graph_resolves_by_its_root() {
    let mut graphs = DashboardTestProjectGraphsV1::new();
    assert_eq!(graphs.lookup("/a"), None);
    graphs.register("/a".to_owned(), 1u32);
    graphs.register("/b".to_owned(), 2u32);
    graphs.register("/a".to_owned(), 3u32);
    assert_eq!(graphs.lookup("/a"), Some(&3));
    assert_eq!(graphs.lookup("/b"), Some(&2));
    assert_eq!(graphs.lookup("/c"), None);
}

#[test]
fn registered_roots_compare_as_paths() {
    let mut graphs = DashboardTestProjectGraphsV1::new();
    graphs.register("/a".to_owned(), 1u32);
    assert_eq!(graphs.lookup("/a/"), Some(&1));
    assert_eq!(graphs.lookup("//a/./"), Some(&1));
    assert_eq!(graphs.lookup("a"), None);
    graphs.register("./a".to_owned(), 2u32);
    graphs.register("a".to_owned(), 3u32);
    assert_eq!(graphs.lookup("./a/"), Some(&2));
    assert_eq!(graphs.lookup("a/."), Some(&3));
    graphs.register("/a/".to_owned(), 4u32);
    assert_eq!(graphs.lookup("/a"), Some(&4));
}

#[test]
fn paths_normalize_by_their_components() {
    assert_eq!(normalize_path("/p/"), "/p");
    assert_eq!(normalize_path("a/./b"), "a/b");
    assert_eq!(normalize_path("a//b/"), "a/b");
    assert_eq!(normalize_path("/"), "/");
    assert_eq!(normalize_path(""), "");
    assert_eq!(normalize_path("./a/"), "./a");
    assert_eq!(normalize_path("/./a/../b"), "/a/../b");
    assert_eq!(normalize_path(".a/b"), ".a/b");
}
