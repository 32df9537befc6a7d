use docbox_manager::error::DbErrorKind;
use docbox_manager::error::StepOutcome;
use docbox_manager::init::initialization_status;
use docbox_manager::init::ConnectOutcome;
use docbox_manager::init::ProbeOutcome;
use docbox_manager::init::RootInitFlow;
use docbox_manager::init::RootInitState;
use docbox_manager::init::RootInitStep;
use docbox_manager::ServiceError;

#[test]
fn absent_root_database_means_not_initialized() {
    let r = initialization_status(
        &ConnectOutcome::Failed(DbErrorKind::UndefinedDatabase),
        &None,
    );
    assert_eq!(r, Ok(false));
}

#[test]
fn absent_registry_relation_means_not_initialized() {
    let r = initialization_status(
        &ConnectOutcome::Connected,
        &Some(ProbeOutcome::Failed(DbErrorKind::UndefinedTable)),
    );
    assert_eq!(r, Ok(false));
}

#[test]
fn database_and_relation_present_means_initialized() {
    let r = initialization_status(&ConnectOutcome::Connected, &Some(ProbeOutcome::Available));
    assert_eq!(r, Ok(true));
}

#[test]
fn other_connect_failure_is_fatal_not_an_answer() {
    let r = initialization_status(&ConnectOutcome::Failed(DbErrorKind::Other), &None);
    assert_eq!(r, Err(ServiceError::Connection));
}

#[test]
fn other_probe_failure_is_fatal_not_an_answer() {
    let r = initialization_status(
        &ConnectOutcome::Connected,
        &Some(ProbeOutcome::Failed(DbErrorKind::Other)),
    );
    assert_eq!(r, Err(ServiceError::Connection));
}

#[test]
fn root_initialization_orders_role_before_secret_and_relation_last() {
    let mut flow = RootInitFlow::new();
    let mut steps = Vec::new();
    while let Some(step) = flow.next_step() {
        steps.push(step);
        flow.advance(StepOutcome::Success);
    }
    assert_eq!(
        steps,
        vec![
            RootInitStep::ConnectBootstrap,
            RootInitStep::CreateRootDatabase,
            RootInitStep::ConnectRoot,
            RootInitStep::CreateRootRole,
            RootInitStep::StoreRootSecret,
            RootInitStep::CreateRegistryRelation,
        ]
    );
    assert_eq!(flow.state, RootInitState::Done);
}

#[test]
fn existing_root_database_is_kept() {
    let mut flow = RootInitFlow::new();
    flow.advance(StepOutcome::Success); // bootstrap connection
    assert_eq!(flow.state, RootInitState::Pending(RootInitStep::CreateRootDatabase));
    flow.advance(StepOutcome::Failure(DbErrorKind::DuplicateDatabase));
    assert_eq!(flow.state, RootInitState::Pending(RootInitStep::ConnectRoot));
}

#[test]
fn root_role_failure_ends_initialization() {
    let mut flow = RootInitFlow::new();
    flow.advance(StepOutcome::Success); // bootstrap connection
    flow.advance(StepOutcome::Success); // root database created
    flow.advance(StepOutcome::Success); // root connection
    flow.advance(StepOutcome::Failure(DbErrorKind::DuplicateObject));
    assert_eq!(flow.state, RootInitState::Failed(ServiceError::PartialProvisioning));
    assert!(flow.next_step().is_none());
}

#[test]
fn bootstrap_connect_failure_is_connection_error() {
    let mut flow = RootInitFlow::new();
    flow.advance(StepOutcome::Failure(DbErrorKind::Other));
    assert_eq!(flow.state, RootInitState::Failed(ServiceError::Connection));
}
