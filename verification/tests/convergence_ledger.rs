use tracedecay_status::convergence::{SchemaConvergenceStageV1, SchemaConvergenceStateV1};
use tracedecay_status::convergence_ledger::{
    shutdown_outcome, ConvergenceRetireError, DaemonSessionRuntimeRegistryV1, ForegroundProjectOpenCounter, ForegroundProjectOpenError,
    RegisteredSchemaConvergenceStatus, SchemaConvergenceLedger,
};

fn schedule(registry: &mut DaemonSessionRuntimeRegistryV1, shard: u64) -> bool {
    registry.schedule_registered_schema_convergence(
        shard,
        format!("store-{shard}"),
        SchemaConvergenceStageV1::RegisteredSchema,
        100 + shard as i64,
    )
}

#[test]
fn a_shard_is_admitted_once_until_it_is_retired() {
    let mut registry = DaemonSessionRuntimeRegistryV1::new();
    assert!(schedule(&mut registry, 7));
    assert!(!schedule(&mut registry, 7), "a scheduled shard is not admitted twice");
    assert_eq!(registry.registered_schema_convergence_schedule_count_for_test(), 1);
    registry.begin_registered_schema_convergence(7);
    registry.finish_registered_schema_convergence(7, Ok(()));
    assert!(!schedule(&mut registry, 7), "a completed shard stays scheduled");
    assert!(registry.registered_schema_convergence_task_retained(7));
    assert_eq!(registry.retire_registered_schema_convergence(7, Ok(())), Ok(()));
    assert_eq!(registry.registered_schema_convergence_status(7), None);
    assert!(!registry.registered_schema_convergence_task_retained(7));
    assert!(schedule(&mut registry, 7), "a retired shard is admitted again");
    assert_eq!(registry.registered_schema_convergence_schedule_count_for_test(), 2);
    assert_eq!(registry.registered_schema_convergence_execution_count_for_test(), 1);
}

#[test]
fn shutdown_admits_no_more_convergence() {
    let mut registry = DaemonSessionRuntimeRegistryV1::new();
    registry.begin_registered_schema_convergence_shutdown();
    assert!(!schedule(&mut registry, 1));
    assert_eq!(registry.registered_schema_convergence_status(1), None);
    assert_eq!(registry.registered_schema_convergence_schedule_count_for_test(), 0);
}

#[test]
fn unconverged_shards_and_observations_follow_the_recorded_outcomes() {
    let mut registry = DaemonSessionRuntimeRegistryV1::new();
    for shard in [9, 3, 5] {
        assert!(schedule(&mut registry, shard));
    }
    registry.begin_registered_schema_convergence(3);
    registry.finish_registered_schema_convergence(3, Ok(()));
    registry.begin_registered_schema_convergence(5);
    registry.finish_registered_schema_convergence(5, Err("disk full".to_owned()));
    registry.begin_registered_schema_convergence(9);

    assert_eq!(
        registry.unconverged_registered_schemas(),
        vec![
            (
                5,
                RegisteredSchemaConvergenceStatus::Degraded {
                    message: "disk full".to_owned()
                }
            ),
            (9, RegisteredSchemaConvergenceStatus::Running),
        ]
    );
    let observations = registry.registered_schema_convergence_observations();
    assert_eq!(observations.len(), 3);
    assert_eq!(observations[0].store, "store-3");
    assert_eq!(observations[0].state, SchemaConvergenceStateV1::Completed);
    assert_eq!(observations[1].state, SchemaConvergenceStateV1::Degraded);
    assert_eq!(observations[1].degraded_row.as_deref(), Some("disk full"));
    assert_eq!(observations[2].started_at_micros, 109);
    assert_eq!(
        observations[2].state,
        SchemaConvergenceStateV1::ReleasedShapeConvergenceInProgress
    );
    assert_eq!(registry.registered_schema_convergence_execution_count_for_test(), 3);
}

#[test]
fn deferred_shards_keep_their_first_record() {
    let mut ledger = SchemaConvergenceLedger::new();
    ledger.defer(4, "store-4".to_owned(), 10);
    ledger.defer(4, "other".to_owned(), 20);
    assert_eq!(ledger.status(4), Some(RegisteredSchemaConvergenceStatus::Pending));
    let observations = ledger.observations();
    assert_eq!(observations.len(), 1);
    assert_eq!(observations[0].store, "store-4");
    assert_eq!(observations[0].started_at_micros, 10);
    assert_eq!(observations[0].state, SchemaConvergenceStateV1::PendingSchemaMigration);
    assert!(!ledger.schedule(4, "again".to_owned(), SchemaConvergenceStageV1::RegisteredSchema, 30));
    assert_eq!(ledger.schedule_count_value(), 0);
    assert!(ledger.is_accepting());
}

#[test]
fn releasing_every_foreground_open_settles_them() {
    let mut registry = DaemonSessionRuntimeRegistryV1::new();
    assert!(registry.foreground_project_opens_settled());
    assert_eq!(registry.begin_foreground_project_open(), Ok(()));
    assert_eq!(registry.begin_foreground_project_open(), Ok(()));
    assert!(!registry.foreground_project_opens_settled());
    assert!(!registry.end_foreground_project_open());
    assert!(registry.end_foreground_project_open());
    assert!(registry.foreground_project_opens_settled());

    let mut counter = ForegroundProjectOpenCounter::new();
    assert_eq!(counter.enter(), Ok(()));
    assert!(counter.release());
    assert!(counter.is_settled());
    let _ = ForegroundProjectOpenError::AdmissionCounterExhausted;
}

#[test]
fn shutdown_and_exact_retirement_preserve_failed_join() {
    let mut registry = DaemonSessionRuntimeRegistryV1::new();
    assert!(schedule(&mut registry, 11));
    let failure = registry
        .retire_registered_schema_convergence(11, Err("convergence task failure".to_owned()))
        .expect_err("failed task retirement");
    assert_eq!(
        failure,
        ConvergenceRetireError::JoinFailed {
            shard: 11,
            error: "convergence task failure".to_owned()
        }
    );
    assert_eq!(
        registry
            .retire_registered_schema_convergence(11, Err("convergence task failure".to_owned()))
            .unwrap_err(),
        failure
    );
    assert!(registry.registered_schema_convergence_task_retained(11));
    assert_eq!(
        registry.registered_schema_convergence_status(11),
        Some(RegisteredSchemaConvergenceStatus::Pending)
    );
    assert_eq!(registry.registered_schema_convergence_observations().len(), 1);
    assert_eq!(
        registry
            .shutdown_registered_schema_convergence(&vec![(
                11,
                Err("convergence task failure".to_owned())
            )])
            .unwrap_err(),
        vec![failure]
    );
    assert!(registry.registered_schema_convergence_task_retained(11));
    assert!(!schedule(&mut registry, 12), "a shut-down registry admits nothing");
}

#[test]
fn retiring_a_shard_without_a_task_leaves_it_alone() {
    let mut ledger = SchemaConvergenceLedger::new();
    ledger.defer(4, "store-4".to_owned(), 10);
    assert!(!ledger.has_retained_task(4));
    assert_eq!(ledger.retire(4, Err("ignored".to_owned())), Ok(()));
    assert_eq!(ledger.status(4), Some(RegisteredSchemaConvergenceStatus::Pending));
    assert_eq!(ledger.observations().len(), 1);
}

#[test]
fn shutdown_reports_every_failed_join_in_order() {
    assert_eq!(shutdown_outcome(&vec![]), Ok(()));
    assert_eq!(shutdown_outcome(&vec![(1, Ok(())), (2, Ok(()))]), Ok(()));
    assert_eq!(
        shutdown_outcome(&vec![
            (4, Err("first".to_owned())),
            (5, Ok(())),
            (6, Err("second".to_owned())),
        ]),
        Err(vec![
            ConvergenceRetireError::JoinFailed { shard: 4, error: "first".to_owned() },
            ConvergenceRetireError::JoinFailed { shard: 6, error: "second".to_owned() },
        ])
    );

    let mut ledger = SchemaConvergenceLedger::new();
    assert!(ledger.schedule(8, "store-8".to_owned(), SchemaConvergenceStageV1::RegisteredSchema, 1));
    assert_eq!(ledger.shutdown(&vec![(8, Ok(()))]), Ok(()));
    assert!(!ledger.is_accepting());
    assert!(ledger.has_retained_task(8), "shutdown keeps every entry");
    assert_eq!(ledger.status(8), Some(RegisteredSchemaConvergenceStatus::Pending));
}

#[test]
fn the_permit_passes_from_one_finished_run_to_the_next() {
    let mut registry = DaemonSessionRuntimeRegistryV1::new();
    assert!(schedule(&mut registry, 1));
    assert!(schedule(&mut registry, 2));
    registry.begin_registered_schema_convergence(1);
    registry.finish_registered_schema_convergence(1, Ok(()));
    registry.begin_registered_schema_convergence(2);
    assert_eq!(
        registry.registered_schema_convergence_status(2),
        Some(RegisteredSchemaConvergenceStatus::Running)
    );
    assert_eq!(registry.retire_registered_schema_convergence(2, Err("aborted".to_owned())).is_err(), true);
    assert!(schedule(&mut registry, 3));
    registry.begin_registered_schema_convergence(3);
    assert_eq!(registry.registered_schema_convergence_execution_count_for_test(), 3);
    assert_eq!(registry.registered_schema_convergence_schedule_count_for_test(), 3);
}

#[test]
fn a_scheduled_run_ends_in_its_convergence_outcome() {
    let mut registry = DaemonSessionRuntimeRegistryV1::new();
    assert!(schedule(&mut registry, 1));
    assert!(schedule(&mut registry, 2));
    registry.run_registered_schema_convergence(1, Ok(()));
    registry.run_registered_schema_convergence(2, Err("schema drift".to_owned()));
    assert_eq!(
        registry.registered_schema_convergence_status(1),
        Some(RegisteredSchemaConvergenceStatus::Complete)
    );
    assert_eq!(
        registry.registered_schema_convergence_status(2),
        Some(RegisteredSchemaConvergenceStatus::Degraded {
            message: "schema drift".to_owned()
        })
    );
    assert_eq!(registry.registered_schema_convergence_execution_count_for_test(), 2);
    assert_eq!(registry.unconverged_registered_schemas().len(), 1);
}
