//! The provisioning orchestrator: the ordered steps that realise a
//! tenant's full resource set.
//!
//! The caller performs one outside step at a time — connect, create the
//! database, open the two connections, create the role, store the
//! secret, run the delegated tenant initialization — and feeds back each
//! outcome. The flow holds the policy: a duplicate database counts as
//! created, any other failure ends the run, and no compensating rollback
//! of completed steps is attempted (a documented gap, not corrected
//! here).

use vstd::prelude::*;
use vstd::string::StrSliceExecFns;
use vstd::string::StringExecFns;

use crate::error::DbErrorKind;
use crate::error::ServiceError;
use crate::error::StepOutcome;
use crate::strutil::hex_char;
use crate::strutil::push_char;
use crate::strutil::spec_hex_char;
use crate::tenant::CreateTenant;
use crate::tenant::Tenant;

verus! {

/// The outside steps of tenant provisioning, in order.
#[derive(Clone, Copy, Debug, PartialEq, Eq, Structural)]
pub enum ProvisionStep {
    /// Connect to the administrative database with root credentials.
    ConnectAdmin,
    /// Create the tenant database; an existing one is kept.
    CreateDatabase,
    /// Open one connection to the root database and one to the tenant
    /// database.
    OpenConnections,
    /// Create the restricted tenant role with a fresh password.
    CreateRole,
    /// Store the role credentials under the tenant's secret name.
    StoreSecret,
    /// Run the delegated tenant initialization: search index, storage
    /// bucket, registry insertion.
    InitializeTenant,
}

/// The state of a provisioning run.
#[derive(Clone, Copy, Debug, PartialEq, Eq, Structural)]
pub enum ProvisionState {
    /// The given step is next.
    Pending(ProvisionStep),
    /// Every step succeeded; the tenant record can be assembled.
    Done,
    /// A step failed; completed steps stay in place.
    Failed(ServiceError),
}

/// The transition of the provisioning machine: each success advances to
/// the next step; a duplicate database at the create-database step counts
/// as created; any other failure ends the run, as a connection error for
/// the two connection steps and as a partial-provisioning error
/// otherwise.
pub open spec fn spec_provision_transition(
    state: ProvisionState,
    outcome: StepOutcome,
) -> ProvisionState {
    match state {
        ProvisionState::Pending(step) => match step {
            ProvisionStep::ConnectAdmin => match outcome {
                StepOutcome::Success => ProvisionState::Pending(ProvisionStep::CreateDatabase),
                StepOutcome::Failure(_) => ProvisionState::Failed(ServiceError::Connection),
            },
            ProvisionStep::CreateDatabase => match outcome {
                StepOutcome::Success => ProvisionState::Pending(ProvisionStep::OpenConnections),
                StepOutcome::Failure(kind) => if kind == DbErrorKind::DuplicateDatabase {
                    ProvisionState::Pending(ProvisionStep::OpenConnections)
                } else {
                    ProvisionState::Failed(ServiceError::PartialProvisioning)
                },
            },
            ProvisionStep::OpenConnections => match outcome {
                StepOutcome::Success => ProvisionState::Pending(ProvisionStep::CreateRole),
                StepOutcome::Failure(_) => ProvisionState::Failed(ServiceError::Connection),
            },
            ProvisionStep::CreateRole => match outcome {
                StepOutcome::Success => ProvisionState::Pending(ProvisionStep::StoreSecret),
                StepOutcome::Failure(_) => ProvisionState::Failed(
                    ServiceError::PartialProvisioning,
                ),
            },
            ProvisionStep::StoreSecret => match outcome {
                StepOutcome::Success => ProvisionState::Pending(ProvisionStep::InitializeTenant),
                StepOutcome::Failure(_) => ProvisionState::Failed(
                    ServiceError::PartialProvisioning,
                ),
            },
            ProvisionStep::InitializeTenant => match outcome {
                StepOutcome::Success => ProvisionState::Done,
                StepOutcome::Failure(_) => ProvisionState::Failed(
                    ServiceError::PartialProvisioning,
                ),
            },
        },
        ProvisionState::Done => ProvisionState::Done,
        ProvisionState::Failed(e) => ProvisionState::Failed(e),
    }
}

/// Law: provisioning is idempotent against an existing database. At the
/// create-database step a duplicate-database failure advances the flow
/// exactly as success does, so every later step still executes.
pub proof fn lemma_duplicate_database_is_success(outcome: StepOutcome)
    requires
        outcome == StepOutcome::Failure(DbErrorKind::DuplicateDatabase),
    ensures
        spec_provision_transition(ProvisionState::Pending(ProvisionStep::CreateDatabase), outcome)
            == spec_provision_transition(
            ProvisionState::Pending(ProvisionStep::CreateDatabase),
            StepOutcome::Success,
        ),
        spec_provision_transition(ProvisionState::Pending(ProvisionStep::CreateDatabase), outcome)
            == ProvisionState::Pending(ProvisionStep::OpenConnections),
{
}

/// One tenant provisioning run, carrying the creation request it
/// realises.
#[derive(Debug)]
pub struct ProvisionFlow {
    /// The current state.
    pub state: ProvisionState,
    /// The creation request the run realises.
    pub config: CreateTenant,
}

impl ProvisionFlow {
    /// Start provisioning the requested tenant.
    pub fn new(config: CreateTenant) -> (r: ProvisionFlow)
        ensures
            r.state == ProvisionState::Pending(ProvisionStep::ConnectAdmin),
            r.config@ == config@,
    {
        ProvisionFlow { state: ProvisionState::Pending(ProvisionStep::ConnectAdmin), config }
    }

    /// The outside step the caller must perform next, if any.
    pub fn next_step(&self) -> (r: Option<ProvisionStep>)
        ensures
            match r {
                Some(step) => self.state == ProvisionState::Pending(step),
                None => self.state is Done || self.state is Failed,
            },
    {
        match self.state {
            ProvisionState::Pending(step) => Some(step),
            ProvisionState::Done => None,
            ProvisionState::Failed(_) => None,
        }
    }

    /// Feed back the outcome of the pending step.
    pub fn advance(&mut self, outcome: StepOutcome)
        requires
            old(self).state is Pending,
        ensures
            final(self).state == spec_provision_transition(old(self).state, outcome),
            final(self).config@ == old(self).config@,
    {
        let next = match self.state {
            ProvisionState::Pending(step) => match step {
                ProvisionStep::ConnectAdmin => match outcome {
                    StepOutcome::Success => ProvisionState::Pending(ProvisionStep::CreateDatabase),
                    StepOutcome::Failure(_) => ProvisionState::Failed(ServiceError::Connection),
                },
                ProvisionStep::CreateDatabase => match outcome {
                    StepOutcome::Success => ProvisionState::Pending(ProvisionStep::OpenConnections),
                    StepOutcome::Failure(kind) => {
                        if kind == DbErrorKind::DuplicateDatabase {
                            ProvisionState::Pending(ProvisionStep::OpenConnections)
                        } else {
                            ProvisionState::Failed(ServiceError::PartialProvisioning)
                        }
                    },
                },
                ProvisionStep::OpenConnections => match outcome {
                    StepOutcome::Success => ProvisionState::Pending(ProvisionStep::CreateRole),
                    StepOutcome::Failure(_) => ProvisionState::Failed(ServiceError::Connection),
                },
                ProvisionStep::CreateRole => match outcome {
                    StepOutcome::Success => ProvisionState::Pending(ProvisionStep::StoreSecret),
                    StepOutcome::Failure(_) => ProvisionState::Failed(
                        ServiceError::PartialProvisioning,
                    ),
                },
                ProvisionStep::StoreSecret => match outcome {
                    StepOutcome::Success => ProvisionState::Pending(
                        ProvisionStep::InitializeTenant,
                    ),
                    StepOutcome::Failure(_) => ProvisionState::Failed(
                        ServiceError::PartialProvisioning,
                    ),
                },
                ProvisionStep::InitializeTenant => match outcome {
                    StepOutcome::Success => ProvisionState::Done,
                    StepOutcome::Failure(_) => ProvisionState::Failed(
                        ServiceError::PartialProvisioning,
                    ),
                },
            },
            ProvisionState::Done => ProvisionState::Done,
            ProvisionState::Failed(e) => ProvisionState::Failed(e),
        };
        self.state = next;
    }

    /// The fully assembled tenant record, once every step has succeeded.
    pub fn finish(self) -> (t: Tenant)
        requires
            self.state == ProvisionState::Done,
        ensures
            t@ == self.config@,
    {
        self.config.into_tenant()
    }
}

/// One escaped character of the secret payload: a quote or backslash is
/// preceded by a backslash, a control character becomes a `\u00..`
/// escape, and everything else stands as itself.
pub open spec fn spec_escape_char(c: char) -> Seq<char> {
    if c == '"' {
        seq!['\\', '"']
    } else if c == '\\' {
        seq!['\\', '\\']
    } else if (c as u32) < 32 {
        seq![
            '\\',
            'u',
            '0',
            '0',
            spec_hex_char((c as u32 / 16) as int),
            spec_hex_char((c as u32 % 16) as int),
        ]
    } else {
        seq![c]
    }
}

/// A character sequence with every character escaped for a JSON string.
pub open spec fn spec_json_escaped(s: Seq<char>) -> Seq<char>
    decreases s.len(),
{
    if s.len() == 0 {
        Seq::empty()
    } else {
        spec_json_escaped(s.drop_last()) + spec_escape_char(s.last())
    }
}

/// Append `s` to `out`, escaped for the inside of a JSON string.
fn append_escaped(out: &mut String, s: &str)
    ensures
        final(out)@ == old(out)@ + spec_json_escaped(s@),
{
    let n: usize = s.unicode_len();
    let mut i: usize = 0;
    proof {
        assert(out@ =~= old(out)@ + spec_json_escaped(s@.take(0)));
    }
    while i < n
        invariant
            i <= n,
            n == s@.len(),
            out@ == old(out)@ + spec_json_escaped(s@.take(i as int)),
        decreases n - i,
    {
        proof {
            assert(s@.take(i as int + 1).drop_last() =~= s@.take(i as int));
            assert(s@.take(i as int + 1).last() == s@[i as int]);
        }
        let c = s.get_char(i);
        if c == '"' {
            push_char(out, '\\');
            push_char(out, '"');
        } else if c == '\\' {
            push_char(out, '\\');
            push_char(out, '\\');
        } else if (c as u32) < 32 {
            let v: u32 = c as u32;
            push_char(out, '\\');
            push_char(out, 'u');
            push_char(out, '0');
            push_char(out, '0');
            let high = hex_char((v / 16) as u8);
            push_char(out, high);
            let low = hex_char((v % 16) as u8);
            push_char(out, low);
        } else {
            push_char(out, c);
        }
        proof {
            assert(out@ =~= old(out)@ + spec_json_escaped(s@.take(i as int + 1)));
        }
        i = i + 1;
    }
    proof {
        assert(s@.take(n as int) =~= s@);
    }
}

/// The secret payload stored for a database role: a JSON object holding
/// the role's username and password.
pub open spec fn spec_secret_payload(username: Seq<char>, password: Seq<char>) -> Seq<char> {
    "{\"username\":\""@ + spec_json_escaped(username) + "\",\"password\":\""@ + spec_json_escaped(
        password,
    ) + "\"}"@
}

/// Serialize the credential pair as the secret payload.
pub fn secret_payload(username: &str, password: &str) -> (r: String)
    ensures
        r@ == spec_secret_payload(username@, password@),
{
    let mut out = String::from_str("{\"username\":\"");
    append_escaped(&mut out, username);
    out.append("\",\"password\":\"");
    append_escaped(&mut out, password);
    out.append("\"}");
    proof {
        assert(out@ =~= spec_secret_payload(username@, password@));
    }
    out
}

} // verus!
