use docbox_manager::error::DbErrorKind;
use docbox_manager::error::StepOutcome;
use docbox_manager::password::random_password;
use docbox_manager::password::DEFAULT_PASSWORD_LENGTH;
use docbox_manager::provision::secret_payload;
use docbox_manager::provision::ProvisionFlow;
use docbox_manager::provision::ProvisionState;
use docbox_manager::provision::ProvisionStep;
use docbox_manager::CreateTenant;
use docbox_manager::ServiceError;

fn sample_request() -> CreateTenant {
    CreateTenant {
        id: 42,
        name: "acme".to_string(),
        env: "prod".to_string(),
        db_name: "docbox-acme".to_string(),
        db_secret_name: "postgres/docbox/acme".to_string(),
        db_role_name: "docbox_acme".to_string(),
        storage_bucket_name: "docbox-acme-files".to_string(),
        storage_cors_origins: vec!["https://acme.example".to_string()],
        storage_s3_queue_arn: Some("arn:aws:sqs:eu-west-1:1:docbox".to_string()),
        search_index_name: "docbox-acme".to_string(),
        event_queue_url: None,
    }
}

fn drive_to_done(mut flow: ProvisionFlow, create_db_outcome: StepOutcome) -> ProvisionFlow {
    while let Some(step) = flow.next_step() {
        let outcome = if step == ProvisionStep::CreateDatabase {
            create_db_outcome
        } else {
            StepOutcome::Success
        };
        flow.advance(outcome);
    }
    flow
}

#[test]
fn provisioning_runs_every_step_in_order() {
    let mut flow = ProvisionFlow::new(sample_request());
    let mut steps = Vec::new();
    while let Some(step) = flow.next_step() {
        steps.push(step);
        flow.advance(StepOutcome::Success);
    }
    assert_eq!(
        steps,
        vec![
            ProvisionStep::ConnectAdmin,
            ProvisionStep::CreateDatabase,
            ProvisionStep::OpenConnections,
            ProvisionStep::CreateRole,
            ProvisionStep::StoreSecret,
            ProvisionStep::InitializeTenant,
        ]
    );
    assert_eq!(flow.state, ProvisionState::Done);
}

#[test]
fn duplicate_database_is_swallowed_and_later_steps_run() {
    // A second provisioning of the same db_name sees the duplicate error
    // at the create-database step; the flow proceeds exactly as on
    // success and finishes.
    let flow = drive_to_done(
        ProvisionFlow::new(sample_request()),
        StepOutcome::Failure(DbErrorKind::DuplicateDatabase),
    );
    assert_eq!(flow.state, ProvisionState::Done);
}

#[test]
fn other_create_database_failure_aborts() {
    let mut flow = ProvisionFlow::new(sample_request());
    flow.advance(StepOutcome::Success); // admin connection
    assert_eq!(flow.state, ProvisionState::Pending(ProvisionStep::CreateDatabase));
    flow.advance(StepOutcome::Failure(DbErrorKind::Other));
    assert_eq!(flow.state, ProvisionState::Failed(ServiceError::PartialProvisioning));
    assert!(flow.next_step().is_none());
}

#[test]
fn admin_connection_failure_is_connection_error() {
    let mut flow = ProvisionFlow::new(sample_request());
    flow.advance(StepOutcome::Failure(DbErrorKind::Other));
    assert_eq!(flow.state, ProvisionState::Failed(ServiceError::Connection));
}

#[test]
fn secret_store_failure_leaves_partial_provisioning() {
    let mut flow = ProvisionFlow::new(sample_request());
    flow.advance(StepOutcome::Success); // admin connection
    flow.advance(StepOutcome::Success); // database created
    flow.advance(StepOutcome::Success); // connections opened
    flow.advance(StepOutcome::Success); // role created
    assert_eq!(flow.state, ProvisionState::Pending(ProvisionStep::StoreSecret));
    flow.advance(StepOutcome::Failure(DbErrorKind::Other));
    // The role exists with no retrievable credential: surfaced, not
    // repaired.
    assert_eq!(flow.state, ProvisionState::Failed(ServiceError::PartialProvisioning));
}

#[test]
fn finished_flow_assembles_the_requested_tenant() {
    let flow = drive_to_done(ProvisionFlow::new(sample_request()), StepOutcome::Success);
    let tenant = flow.finish();
    let want = sample_request();
    assert_eq!(tenant.env, want.env);
    assert_eq!(tenant.id, want.id);
    assert_eq!(tenant.name, want.name);
    assert_eq!(tenant.db_name, want.db_name);
    assert_eq!(tenant.db_secret_name, want.db_secret_name);
    assert_eq!(tenant.db_role_name, want.db_role_name);
    assert_eq!(tenant.storage_bucket_name, want.storage_bucket_name);
    assert_eq!(tenant.storage_cors_origins, want.storage_cors_origins);
    assert_eq!(tenant.storage_s3_queue_arn, want.storage_s3_queue_arn);
    assert_eq!(tenant.search_index_name, want.search_index_name);
    assert_eq!(tenant.event_queue_url, want.event_queue_url);
}

#[test]
fn secret_payload_is_the_credential_object() {
    let payload = secret_payload("docbox_acme", "s3cr3t");
    assert_eq!(payload, "{\"username\":\"docbox_acme\",\"password\":\"s3cr3t\"}");
}

#[test]
fn secret_payload_escapes_quotes_backslashes_and_controls() {
    let payload = secret_payload("u\"ser\\", "p\nw");
    assert_eq!(payload, "{\"username\":\"u\\\"ser\\\\\",\"password\":\"p\\u000aw\"}");
}

#[test]
fn random_password_has_requested_length_and_charset() {
    let password = random_password(DEFAULT_PASSWORD_LENGTH);
    assert_eq!(password.chars().count(), 30);
    assert!(password.chars().all(|c| c.is_ascii_alphanumeric()));
}

#[test]
fn random_password_of_zero_length_is_empty() {
    assert_eq!(random_password(0), "");
}

#[test]
fn random_passwords_differ() {
    // Two draws of 30 alphanumeric characters collide with probability
    // far below any plausible flake rate.
    assert_ne!(random_password(30), random_password(30));
}
