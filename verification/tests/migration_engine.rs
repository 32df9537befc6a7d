use docbox_manager::error::DbErrorKind;
use docbox_manager::error::StepOutcome;
use docbox_manager::migrate::collect_pending;
use docbox_manager::migrate::pending_migrations;
use docbox_manager::migrate::select_tenants;
use docbox_manager::migrate::MigrateConfig;
use docbox_manager::migrate::MigrationRun;
use docbox_manager::migrate::TenantMigrationFlow;
use docbox_manager::migrate::TenantMigrationState;
use docbox_manager::migrate::TenantMigrationStep;
use docbox_manager::tenant::Tenant;
use docbox_manager::ServiceError;

fn sample_tenant(env: &str, id: u128, name: &str) -> Tenant {
    Tenant {
        env: env.to_string(),
        id,
        name: name.to_string(),
        db_name: format!("docbox-{}", name),
        db_secret_name: format!("postgres/docbox/{}", name),
        db_role_name: format!("docbox_{}", name),
        storage_bucket_name: format!("docbox-{}-files", name),
        storage_cors_origins: Vec::new(),
        storage_s3_queue_arn: None,
        search_index_name: format!("docbox-{}", name),
        event_queue_url: None,
    }
}

/// Drive a run to completion, failing exactly the tenants named in
/// `failing`; returns the applied keys as (env, id) pairs.
fn drive(tenants: Vec<Tenant>, skip_failed: bool, failing: &[u128]) -> Vec<(String, u128)> {
    let mut run = MigrationRun::new(tenants, skip_failed);
    while let Some(next) = run.next_tenant() {
        let fails = failing.contains(&next.id);
        run.record(!fails);
    }
    run.applied().iter().map(|k| (k.env.clone(), k.id)).collect()
}

#[test]
fn halting_run_stops_at_first_failure() {
    let tenants = vec![
        sample_tenant("prod", 1, "a"),
        sample_tenant("prod", 2, "b"),
        sample_tenant("prod", 3, "c"),
    ];
    let applied = drive(tenants, false, &[2]);
    assert_eq!(applied, vec![("prod".to_string(), 1)]);
}

#[test]
fn halting_run_never_attempts_later_tenants() {
    let tenants = vec![
        sample_tenant("prod", 1, "a"),
        sample_tenant("prod", 2, "b"),
        sample_tenant("prod", 3, "c"),
    ];
    let mut run = MigrationRun::new(tenants, false);
    let first = run.next_tenant().unwrap().id;
    assert_eq!(first, 1);
    run.record(true);
    let second = run.next_tenant().unwrap().id;
    assert_eq!(second, 2);
    run.record(false);
    // The run is halted: the third tenant is never handed out.
    assert!(run.next_tenant().is_none());
    assert!(run.is_done());
}

#[test]
fn skipping_run_continues_past_failure() {
    let tenants = vec![
        sample_tenant("prod", 1, "a"),
        sample_tenant("prod", 2, "b"),
        sample_tenant("prod", 3, "c"),
    ];
    let applied = drive(tenants, true, &[2]);
    assert_eq!(applied, vec![("prod".to_string(), 1), ("prod".to_string(), 3)]);
}

#[test]
fn run_with_no_failures_applies_all_in_order() {
    let tenants = vec![
        sample_tenant("prod", 5, "a"),
        sample_tenant("prod", 4, "b"),
        sample_tenant("prod", 9, "c"),
    ];
    let applied = drive(tenants, false, &[]);
    let ids: Vec<u128> = applied.iter().map(|k| k.1).collect();
    assert_eq!(ids, vec![5, 4, 9]);
}

#[test]
fn filter_by_env_touches_only_that_env() {
    let tenants = vec![
        sample_tenant("prod", 1, "a"),
        sample_tenant("staging", 2, "b"),
        sample_tenant("prod", 3, "c"),
    ];
    let config =
        MigrateConfig { env: "prod".to_string(), tenant_id: None, skip_failed: false };
    let selected = select_tenants(&tenants, &config);
    let ids: Vec<u128> = selected.iter().map(|t| t.id).collect();
    assert_eq!(ids, vec![1, 3]);
}

#[test]
fn filter_by_tenant_id_selects_exactly_one() {
    let tenants = vec![
        sample_tenant("prod", 1, "a"),
        sample_tenant("prod", 2, "b"),
        sample_tenant("prod", 3, "c"),
    ];
    let config =
        MigrateConfig { env: "prod".to_string(), tenant_id: Some(2), skip_failed: false };
    let selected = select_tenants(&tenants, &config);
    assert_eq!(selected.len(), 1);
    assert_eq!(selected[0].id, 2);
}

#[test]
fn filter_needs_env_and_id_to_agree() {
    let tenants = vec![sample_tenant("prod", 1, "a"), sample_tenant("staging", 2, "b")];
    let config =
        MigrateConfig { env: "prod".to_string(), tenant_id: Some(2), skip_failed: false };
    let selected = select_tenants(&tenants, &config);
    assert!(selected.is_empty());
}

#[test]
fn pending_is_known_minus_applied_in_order() {
    let known = vec![
        "0001_setup".to_string(),
        "0002_folders".to_string(),
        "0003_search".to_string(),
    ];
    let applied = vec!["0002_folders".to_string()];
    let pending = pending_migrations(&known, &applied);
    assert_eq!(pending, vec!["0001_setup".to_string(), "0003_search".to_string()]);
}

#[test]
fn pending_of_fully_migrated_tenant_is_empty() {
    let known = vec!["0001_setup".to_string()];
    let applied = vec!["0001_setup".to_string()];
    assert!(pending_migrations(&known, &applied).is_empty());
}

#[test]
fn collect_pending_keeps_tenant_order() {
    let tenants = vec![sample_tenant("prod", 1, "a"), sample_tenant("prod", 2, "b")];
    let known = vec!["0001_setup".to_string(), "0002_folders".to_string()];
    let ledgers = vec![vec!["0001_setup".to_string()], Vec::new()];
    let report = collect_pending(&tenants, &ledgers, &known);
    assert_eq!(report.len(), 2);
    assert_eq!(report[0].tenant.id, 1);
    assert_eq!(report[0].migrations, vec!["0002_folders".to_string()]);
    assert_eq!(report[1].tenant.id, 2);
    assert_eq!(
        report[1].migrations,
        vec!["0001_setup".to_string(), "0002_folders".to_string()]
    );
}

#[test]
fn tenant_migration_commits_tenant_before_root() {
    let mut flow = TenantMigrationFlow::new();
    let mut steps = Vec::new();
    while let Some(step) = flow.next_step() {
        steps.push(step);
        flow.advance(StepOutcome::Success);
    }
    assert_eq!(
        steps,
        vec![
            TenantMigrationStep::ConnectTenant,
            TenantMigrationStep::BeginTransactions,
            TenantMigrationStep::ApplyMigrations,
            TenantMigrationStep::CommitTenant,
            TenantMigrationStep::CommitRoot,
        ]
    );
    assert_eq!(flow.state, TenantMigrationState::Done);
}

#[test]
fn tenant_migration_failure_surfaces_migration_error() {
    let mut flow = TenantMigrationFlow::new();
    flow.advance(StepOutcome::Success); // connected
    flow.advance(StepOutcome::Success); // transactions begun
    flow.advance(StepOutcome::Failure(DbErrorKind::Other)); // scripts failed
    assert_eq!(flow.state, TenantMigrationState::Failed(ServiceError::Migration));
    assert!(flow.next_step().is_none());
}

#[test]
fn tenant_migration_connect_failure_is_connection_error() {
    let mut flow = TenantMigrationFlow::new();
    flow.advance(StepOutcome::Failure(DbErrorKind::UndefinedDatabase));
    assert_eq!(flow.state, TenantMigrationState::Failed(ServiceError::Connection));
}
