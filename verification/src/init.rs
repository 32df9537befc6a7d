//! Root initialization: detecting whether the root database and the
//! tenant registry relation exist, and the ordered steps that create
//! them.
//!
//! Initialization state is derived, never stored: the caller attempts a
//! connection to the root database and, if that succeeds, a registry
//! probe, and hands the classified outcomes to
//! [`initialization_status`]. The creation workflow is a step machine:
//! the caller performs one outside step at a time and feeds back its
//! outcome.

use vstd::prelude::*;

use crate::error::DbErrorKind;
use crate::error::ServiceError;
use crate::error::StepOutcome;

verus! {

/// Response to the initialization check.
#[derive(Clone, Copy, Debug, PartialEq, Eq, Structural)]
pub struct IsInitializedResponse {
    /// Whether the root database and the registry relation both exist.
    pub initialized: bool,
}

/// The classified outcome of connecting to the root database.
#[derive(Clone, Copy, Debug, PartialEq, Eq, Structural)]
pub enum ConnectOutcome {
    /// The connection succeeded.
    Connected,
    /// The connection failed with the classified kind.
    Failed(DbErrorKind),
}

/// The classified outcome of the registry probe: a lookup with a sentinel
/// key, issued only after a successful connection.
#[derive(Clone, Copy, Debug, PartialEq, Eq, Structural)]
pub enum ProbeOutcome {
    /// The registry relation answered.
    Available,
    /// The probe failed with the classified kind.
    Failed(DbErrorKind),
}

/// What the two outcomes say about initialization: an absent root
/// database or an absent registry relation means "not initialized"; any
/// other failure is surfaced, not turned into an answer.
pub open spec fn spec_initialization_status(
    connect: ConnectOutcome,
    probe: Option<ProbeOutcome>,
) -> Result<bool, ServiceError> {
    match connect {
        ConnectOutcome::Failed(kind) => if kind == DbErrorKind::UndefinedDatabase {
            Ok(false)
        } else {
            Err(ServiceError::Connection)
        },
        ConnectOutcome::Connected => match probe {
            Option::Some(ProbeOutcome::Available) => Ok(true),
            Option::Some(ProbeOutcome::Failed(kind)) => if kind == DbErrorKind::UndefinedTable {
                Ok(false)
            } else {
                Err(ServiceError::Connection)
            },
            Option::None => Err(ServiceError::Connection),
        },
    }
}

/// Decide the initialization check from the classified outcomes. The
/// probe exists exactly when the connection succeeded.
pub fn initialization_status(connect: &ConnectOutcome, probe: &Option<ProbeOutcome>) -> (r: Result<
    bool,
    ServiceError,
>)
    requires
        (probe is Some) <==> (connect is Connected),
    ensures
        r == spec_initialization_status(*connect, *probe),
{
    match connect {
        ConnectOutcome::Failed(kind) => {
            if *kind == DbErrorKind::UndefinedDatabase {
                Ok(false)
            } else {
                Err(ServiceError::Connection)
            }
        },
        ConnectOutcome::Connected => {
            match probe {
                Option::Some(ProbeOutcome::Available) => Ok(true),
                Option::Some(ProbeOutcome::Failed(kind)) => {
                    if *kind == DbErrorKind::UndefinedTable {
                        Ok(false)
                    } else {
                        Err(ServiceError::Connection)
                    }
                },
                Option::None => Err(ServiceError::Connection),
            }
        },
    }
}

/// Law: the check answers `true` exactly when the root database and the
/// registry relation both exist — the connection succeeded and the probe
/// answered; an absent database or an absent relation answers `false`;
/// nothing else produces an answer.
pub proof fn lemma_initialized_iff_both_exist(connect: ConnectOutcome, probe: Option<ProbeOutcome>)
    ensures
        (spec_initialization_status(connect, probe) == Ok::<bool, ServiceError>(true)) <==> (connect
            == ConnectOutcome::Connected && probe == Option::Some(ProbeOutcome::Available)),
        connect == ConnectOutcome::Failed(DbErrorKind::UndefinedDatabase)
            ==> spec_initialization_status(connect, probe) == Ok::<bool, ServiceError>(false),
        (connect == ConnectOutcome::Connected && probe == Option::Some(
            ProbeOutcome::Failed(DbErrorKind::UndefinedTable),
        )) ==> spec_initialization_status(connect, probe) == Ok::<bool, ServiceError>(false),
{
}

/// The outside steps of root initialization, in the order they must run:
/// the root role exists before its credential is stored, and the registry
/// relation comes last.
#[derive(Clone, Copy, Debug, PartialEq, Eq, Structural)]
pub enum RootInitStep {
    /// Connect with administrative credentials to the bootstrap database.
    ConnectBootstrap,
    /// Create the root logical database; an existing one is kept.
    CreateRootDatabase,
    /// Connect to the root database.
    ConnectRoot,
    /// Create the restricted root role with a fresh password.
    CreateRootRole,
    /// Store the root role's credential in the secret store.
    StoreRootSecret,
    /// Create the tenant registry relation.
    CreateRegistryRelation,
}

/// The state of a root initialization run.
#[derive(Clone, Copy, Debug, PartialEq, Eq, Structural)]
pub enum RootInitState {
    /// The given step is next.
    Pending(RootInitStep),
    /// Every step succeeded.
    Done,
    /// A step failed; nothing further runs.
    Failed(ServiceError),
}

/// The transition of the initialization machine: each success advances to
/// the next step; a duplicate root database counts as created; any other
/// failure ends the run.
pub open spec fn spec_root_init_transition(
    state: RootInitState,
    outcome: StepOutcome,
) -> RootInitState {
    match state {
        RootInitState::Pending(step) => match step {
            RootInitStep::ConnectBootstrap => match outcome {
                StepOutcome::Success => RootInitState::Pending(RootInitStep::CreateRootDatabase),
                StepOutcome::Failure(_) => RootInitState::Failed(ServiceError::Connection),
            },
            RootInitStep::CreateRootDatabase => match outcome {
                StepOutcome::Success => RootInitState::Pending(RootInitStep::ConnectRoot),
                StepOutcome::Failure(kind) => if kind == DbErrorKind::DuplicateDatabase {
                    RootInitState::Pending(RootInitStep::ConnectRoot)
                } else {
                    RootInitState::Failed(ServiceError::PartialProvisioning)
                },
            },
            RootInitStep::ConnectRoot => match outcome {
                StepOutcome::Success => RootInitState::Pending(RootInitStep::CreateRootRole),
                StepOutcome::Failure(_) => RootInitState::Failed(ServiceError::Connection),
            },
            RootInitStep::CreateRootRole => match outcome {
                StepOutcome::Success => RootInitState::Pending(RootInitStep::StoreRootSecret),
                StepOutcome::Failure(_) => RootInitState::Failed(
                    ServiceError::PartialProvisioning,
                ),
            },
            RootInitStep::StoreRootSecret => match outcome {
                StepOutcome::Success => RootInitState::Pending(
                    RootInitStep::CreateRegistryRelation,
                ),
                StepOutcome::Failure(_) => RootInitState::Failed(
                    ServiceError::PartialProvisioning,
                ),
            },
            RootInitStep::CreateRegistryRelation => match outcome {
                StepOutcome::Success => RootInitState::Done,
                StepOutcome::Failure(_) => RootInitState::Failed(
                    ServiceError::PartialProvisioning,
                ),
            },
        },
        RootInitState::Done => RootInitState::Done,
        RootInitState::Failed(e) => RootInitState::Failed(e),
    }
}

/// A root initialization run.
#[derive(Clone, Copy, Debug, PartialEq, Eq, Structural)]
pub struct RootInitFlow {
    /// The current state.
    pub state: RootInitState,
}

impl RootInitFlow {
    /// A fresh run: the bootstrap connection is first.
    pub fn new() -> (r: RootInitFlow)
        ensures
            r.state == RootInitState::Pending(RootInitStep::ConnectBootstrap),
    {
        RootInitFlow { state: RootInitState::Pending(RootInitStep::ConnectBootstrap) }
    }

    /// The outside step the caller must perform next, if any.
    pub fn next_step(&self) -> (r: Option<RootInitStep>)
        ensures
            match r {
                Some(step) => self.state == RootInitState::Pending(step),
                None => self.state is Done || self.state is Failed,
            },
    {
        match self.state {
            RootInitState::Pending(step) => Some(step),
            RootInitState::Done => None,
            RootInitState::Failed(_) => None,
        }
    }

    /// Feed back the outcome of the pending step.
    pub fn advance(&mut self, outcome: StepOutcome)
        requires
            old(self).state is Pending,
        ensures
            final(self).state == spec_root_init_transition(old(self).state, outcome),
    {
        let next = match self.state {
            RootInitState::Pending(step) => match step {
                RootInitStep::ConnectBootstrap => match outcome {
                    StepOutcome::Success => RootInitState::Pending(
                        RootInitStep::CreateRootDatabase,
                    ),
                    StepOutcome::Failure(_) => RootInitState::Failed(ServiceError::Connection),
                },
                RootInitStep::CreateRootDatabase => match outcome {
                    StepOutcome::Success => RootInitState::Pending(RootInitStep::ConnectRoot),
                    StepOutcome::Failure(kind) => {
                        if kind == DbErrorKind::DuplicateDatabase {
                            RootInitState::Pending(RootInitStep::ConnectRoot)
                        } else {
                            RootInitState::Failed(ServiceError::PartialProvisioning)
                        }
                    },
                },
                RootInitStep::ConnectRoot => match outcome {
                    StepOutcome::Success => RootInitState::Pending(RootInitStep::CreateRootRole),
                    StepOutcome::Failure(_) => RootInitState::Failed(ServiceError::Connection),
                },
                RootInitStep::CreateRootRole => match outcome {
                    StepOutcome::Success => RootInitState::Pending(RootInitStep::StoreRootSecret),
                    StepOutcome::Failure(_) => RootInitState::Failed(
                        ServiceError::PartialProvisioning,
                    ),
                },
                RootInitStep::StoreRootSecret => match outcome {
                    StepOutcome::Success => RootInitState::Pending(
                        RootInitStep::CreateRegistryRelation,
                    ),
                    StepOutcome::Failure(_) => RootInitState::Failed(
                        ServiceError::PartialProvisioning,
                    ),
                },
                RootInitStep::CreateRegistryRelation => match outcome {
                    StepOutcome::Success => RootInitState::Done,
                    StepOutcome::Failure(_) => RootInitState::Failed(
                        ServiceError::PartialProvisioning,
                    ),
                },
            },
            RootInitState::Done => RootInitState::Done,
            RootInitState::Failed(e) => RootInitState::Failed(e),
        };
        self.state = next;
    }
}

} // verus!
