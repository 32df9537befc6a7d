//! The migration engine.
//!
//! A migration run selects tenants by filter, walks them strictly in
//! registry order, and applies one tenant's migrations at a time. The
//! outside work — connecting to the tenant database, running the scripts,
//! committing the tenant transaction before the root one — is performed by
//! the caller between steps; the engine holds the decisions: which tenant
//! is next, what a failure does to the rest of the run, and which tenants
//! count as applied.
//!
//! The read-only variant computes, for every tenant, the migrations not
//! yet applied to its database. Its per-tenant ledger reads may be issued
//! concurrently by the caller; the result keeps the original tenant order
//! because each entry is computed from the tenant's own position.

use vstd::prelude::*;

use crate::error::ServiceError;
use crate::error::StepOutcome;
use crate::seqext::lemma_filter_distinct_keys;
use crate::seqext::lemma_filter_elements;
use crate::seqext::lemma_filter_push;
use crate::strutil::contains_str;
use crate::strutil::spec_contains_str;
use crate::strutil::str_eq;
use crate::tenant::Tenant;
use crate::tenant::TenantView;

verus! {

/// Which tenants one `migrate` call touches: those of one environment,
/// optionally narrowed to a single tenant id.
#[derive(Debug)]
pub struct MigrateConfig {
    /// Environment whose tenants are migrated.
    pub env: String,
    /// If present, restricts the run to the tenant with this id.
    pub tenant_id: Option<u128>,
    /// Whether a failing tenant is skipped (`true`) or halts the run
    /// (`false`).
    pub skip_failed: bool,
}

/// Whether a tenant matches the filter `(env, tenant_id)`.
pub open spec fn matches_filter(t: TenantView, env: Seq<char>, tenant_id: Option<u128>) -> bool {
    t.env == env && match tenant_id {
        Option::Some(id) => t.id == id,
        Option::None => true,
    }
}

/// The tenants matching the filter `(env, tenant_id)`, in their original
/// order.
pub open spec fn spec_selected(
    tenants: Seq<TenantView>,
    env: Seq<char>,
    tenant_id: Option<u128>,
) -> Seq<TenantView> {
    tenants.filter(|t: TenantView| matches_filter(t, env, tenant_id))
}

/// The tenants matching the filter, in their original order.
pub fn select_tenants(tenants: &Vec<Tenant>, config: &MigrateConfig) -> (r: Vec<Tenant>)
    ensures
        r@.map_values(|t: Tenant| t@) == spec_selected(
            tenants@.map_values(|t: Tenant| t@),
            config.env@,
            config.tenant_id,
        ),
{
    let ghost all = tenants@.map_values(|t: Tenant| t@);
    let ghost pred = |t: TenantView| matches_filter(t, config.env@, config.tenant_id);
    let mut out: Vec<Tenant> = Vec::new();
    let n: usize = tenants.len();
    let mut i: usize = 0;
    proof {
        assert(out@.map_values(|t: Tenant| t@) =~= all.take(0).filter(pred));
    }
    while i < n
        invariant
            i <= n,
            n == tenants@.len(),
            all == tenants@.map_values(|t: Tenant| t@),
            pred == (|t: TenantView| matches_filter(t, config.env@, config.tenant_id)),
            out@.map_values(|t: Tenant| t@) == all.take(i as int).filter(pred),
        decreases n - i,
    {
        proof {
            assert(all.take(i as int + 1) =~= all.take(i as int).push(all[i as int]));
            lemma_filter_push(all.take(i as int), all[i as int], pred);
        }
        let row = &tenants[i];
        let id_matches = match &config.tenant_id {
            Option::Some(id) => row.id == *id,
            Option::None => true,
        };
        if id_matches && str_eq(row.env.as_str(), config.env.as_str()) {
            let dup = row.clone();
            out.push(dup);
        }
        proof {
            assert(out@.map_values(|t: Tenant| t@) =~= all.take(i as int + 1).filter(pred));
        }
        i = i + 1;
    }
    proof {
        assert(all.take(n as int) =~= all);
    }
    out
}

/// Law: a run touches only tenants matching its filter, and every
/// matching tenant is selected.
pub proof fn lemma_selected_iff_matches(
    tenants: Seq<TenantView>,
    env: Seq<char>,
    tenant_id: Option<u128>,
)
    ensures
        forall|i: int|
            0 <= i < spec_selected(tenants, env, tenant_id).len() ==> matches_filter(
                #[trigger] spec_selected(tenants, env, tenant_id)[i],
                env,
                tenant_id,
            ),
        forall|i: int|
            0 <= i < tenants.len() && matches_filter(#[trigger] tenants[i], env, tenant_id)
                ==> spec_selected(tenants, env, tenant_id).contains(tenants[i]),
{
    let pred = |t: TenantView| matches_filter(t, env, tenant_id);
    lemma_filter_elements(tenants, pred);
    assert forall|i: int|
        0 <= i < spec_selected(tenants, env, tenant_id).len() implies matches_filter(
        spec_selected(tenants, env, tenant_id)[i],
        env,
        tenant_id,
    ) by {
        assert(tenants.filter(pred).contains(tenants.filter(pred)[i]));
    }
    assert forall|i: int|
        0 <= i < tenants.len() && matches_filter(#[trigger] tenants[i], env, tenant_id)
        implies spec_selected(tenants, env, tenant_id).contains(tenants[i]) by {
        tenants.lemma_filter_contains(pred, i);
    }
}

/// Law: naming a tenant id restricts a run to at most one tenant, however
/// many tenants share the environment; exactly one when it is present.
pub proof fn lemma_tenant_id_selects_one(tenants: Seq<TenantView>, env: Seq<char>, id: u128)
    requires
        forall|i: int, j: int|
            0 <= i < j < tenants.len() ==> tenants[i].key() != tenants[j].key(),
    ensures
        spec_selected(tenants, env, Option::Some(id)).len() <= 1,
        (exists|i: int|
            0 <= i < tenants.len() && matches_filter(#[trigger] tenants[i], env, Option::Some(id)))
            ==> spec_selected(tenants, env, Option::Some(id)).len() == 1,
{
    let pred = |t: TenantView| matches_filter(t, env, Option::Some(id));
    let f = tenants.filter(pred);
    lemma_filter_distinct_keys(tenants, pred, |t: TenantView| t.key());
    lemma_filter_elements(tenants, pred);
    if f.len() > 1 {
        assert(f.contains(f[0]) && f.contains(f[1]));
        assert(f[0].key() == (env, id) && f[1].key() == (env, id));
        assert(false);
    }
    if exists|i: int|
        0 <= i < tenants.len() && matches_filter(#[trigger] tenants[i], env, Option::Some(id)) {
        let i = choose|i: int|
            0 <= i < tenants.len() && matches_filter(#[trigger] tenants[i], env, Option::Some(id));
        tenants.lemma_filter_contains(pred, i);
    }
}

/// The key of one applied tenant, as reported by a run.
#[derive(Debug)]
pub struct TenantKey {
    /// Environment of the migrated tenant.
    pub env: String,
    /// Identifier of the migrated tenant.
    pub id: u128,
}

impl View for TenantKey {
    type V = (Seq<char>, u128);

    open spec fn view(&self) -> (Seq<char>, u128) {
        (self.env@, self.id)
    }
}

impl Clone for TenantKey {
    /// A clone is equal to the original in every field.
    fn clone(&self) -> (res: Self)
        ensures
            res@ == self@,
    {
        TenantKey { env: self.env.clone(), id: self.id }
    }
}

/// The keys reported by a run over `tenants` whose first `outcomes.len()`
/// steps had the given outcomes: the keys of the successes, in order.
pub open spec fn applied_keys(tenants: Seq<TenantView>, outcomes: Seq<bool>) -> Seq<
    (Seq<char>, u128),
>
    decreases outcomes.len(),
{
    if outcomes.len() == 0 {
        Seq::empty()
    } else if outcomes.last() {
        applied_keys(tenants, outcomes.drop_last()).push(tenants[outcomes.len() - 1].key())
    } else {
        applied_keys(tenants, outcomes.drop_last())
    }
}

/// One sequential migration run: the selected tenants, the recorded
/// outcomes so far, and the failure policy.
#[derive(Debug)]
pub struct MigrationRun {
    selected: Vec<Tenant>,
    skip_failed: bool,
    outcomes: Vec<bool>,
    applied: Vec<TenantKey>,
    halted: bool,
}

impl MigrationRun {
    /// The selected tenants, in the order the run walks them.
    pub closed spec fn spec_selected(&self) -> Seq<TenantView> {
        self.selected@.map_values(|t: Tenant| t@)
    }

    /// The per-tenant outcomes recorded so far, in run order.
    pub closed spec fn spec_outcomes(&self) -> Seq<bool> {
        self.outcomes@
    }

    /// The run's failure policy.
    pub closed spec fn spec_skip_failed(&self) -> bool {
        self.skip_failed
    }

    /// Whether a failure has stopped the run early.
    pub closed spec fn spec_halted(&self) -> bool {
        self.halted
    }

    /// The keys reported as applied so far.
    pub closed spec fn spec_applied(&self) -> Seq<(Seq<char>, u128)> {
        self.applied@.map_values(|k: TenantKey| k@)
    }

    /// Well-formedness: outcomes pair with a prefix of the selected
    /// tenants; the applied keys are exactly the successes in order; the
    /// run halts exactly when a failure is recorded under the halting
    /// policy, and then records nothing further.
    pub open spec fn wf(&self) -> bool {
        &&& self.spec_outcomes().len() <= self.spec_selected().len()
        &&& self.spec_applied() == applied_keys(self.spec_selected(), self.spec_outcomes())
        &&& (self.spec_skip_failed() ==> !self.spec_halted())
        &&& (!self.spec_skip_failed() ==> (forall|j: int|
            0 <= j < self.spec_outcomes().len() - 1 ==> self.spec_outcomes()[j]))
        &&& (!self.spec_skip_failed() ==> (self.spec_halted() <==> (self.spec_outcomes().len() > 0
            && !self.spec_outcomes().last())))
    }

    /// Start a run over the selected tenants.
    pub fn new(selected: Vec<Tenant>, skip_failed: bool) -> (r: MigrationRun)
        ensures
            r.wf(),
            r.spec_selected() == selected@.map_values(|t: Tenant| t@),
            r.spec_outcomes() == Seq::<bool>::empty(),
            r.spec_skip_failed() == skip_failed,
            !r.spec_halted(),
            r.spec_applied() == Seq::<(Seq<char>, u128)>::empty(),
    {
        let r = MigrationRun {
            selected,
            skip_failed,
            outcomes: Vec::new(),
            applied: Vec::new(),
            halted: false,
        };
        proof {
            assert(r.spec_applied() =~= Seq::<(Seq<char>, u128)>::empty());
        }
        r
    }

    /// The tenant the caller must migrate next, if the run is not over.
    pub fn next_tenant(&self) -> (r: Option<&Tenant>)
        requires
            self.wf(),
        ensures
            match r {
                Some(t) => !self.spec_halted() && self.spec_outcomes().len()
                    < self.spec_selected().len() && t@ == self.spec_selected()[self.spec_outcomes().len() as int],
                None => self.spec_halted() || self.spec_outcomes().len()
                    == self.spec_selected().len(),
            },
    {
        if self.halted {
            return None;
        }
        let idx: usize = self.outcomes.len();
        if idx < self.selected.len() {
            Some(&self.selected[idx])
        } else {
            None
        }
    }

    /// Record the outcome of the current tenant's migration. A success
    /// appends the tenant's key to the applied list; a failure applies
    /// nothing and, under the halting policy, stops the run.
    pub fn record(&mut self, success: bool)
        requires
            old(self).wf(),
            !old(self).spec_halted(),
            old(self).spec_outcomes().len() < old(self).spec_selected().len(),
        ensures
            final(self).wf(),
            final(self).spec_selected() == old(self).spec_selected(),
            final(self).spec_skip_failed() == old(self).spec_skip_failed(),
            final(self).spec_outcomes() == old(self).spec_outcomes().push(success),
            final(self).spec_halted() == (!success && !old(self).spec_skip_failed()),
            success ==> final(self).spec_applied() == old(self).spec_applied().push(
                old(self).spec_selected()[old(self).spec_outcomes().len() as int].key(),
            ),
            !success ==> final(self).spec_applied() == old(self).spec_applied(),
    {
        let idx: usize = self.outcomes.len();
        if success {
            let t = &self.selected[idx];
            let key = TenantKey { env: t.env.clone(), id: t.id };
            self.applied.push(key);
        } else {
            if !self.skip_failed {
                self.halted = true;
            }
        }
        self.outcomes.push(success);
        proof {
            assert(self.spec_outcomes().drop_last() =~= old(self).spec_outcomes());
            if success {
                assert(self.spec_applied() =~= old(self).spec_applied().push(
                    old(self).spec_selected()[old(self).spec_outcomes().len() as int].key(),
                ));
            }
        }
    }

    /// Whether the run is over: every selected tenant has an outcome, or a
    /// failure halted it.
    pub fn is_done(&self) -> (r: bool)
        requires
            self.wf(),
        ensures
            r == (self.spec_halted() || self.spec_outcomes().len() == self.spec_selected().len()),
    {
        self.halted || self.outcomes.len() == self.selected.len()
    }

    /// The keys of the tenants migrated so far, in run order.
    pub fn applied(&self) -> (r: &Vec<TenantKey>)
        ensures
            r@.map_values(|k: TenantKey| k@) == self.spec_applied(),
    {
        &self.applied
    }
}

/// The keys of a sequence of tenants, in order.
pub open spec fn keys_of(tenants: Seq<TenantView>) -> Seq<(Seq<char>, u128)> {
    tenants.map_values(|t: TenantView| t.key())
}

/// Law: without skip-failed, a failing tenant halts the run: the applied
/// keys are exactly the tenants before the failure, and none after it is
/// attempted. With no failure recorded, every recorded tenant is applied.
pub proof fn lemma_halting_run_applies_prefix(tenants: Seq<TenantView>, outcomes: Seq<bool>)
    requires
        outcomes.len() <= tenants.len(),
        forall|j: int| 0 <= j < outcomes.len() - 1 ==> outcomes[j],
    ensures
        outcomes.len() > 0 && !outcomes.last() ==> applied_keys(tenants, outcomes) == keys_of(
            tenants.take(outcomes.len() - 1),
        ),
        (outcomes.len() == 0 || outcomes.last()) ==> applied_keys(tenants, outcomes) == keys_of(
            tenants.take(outcomes.len() as int),
        ),
    decreases outcomes.len(),
{
    if outcomes.len() > 0 {
        lemma_halting_run_applies_prefix(tenants, outcomes.drop_last());
        assert(forall|j: int|
            0 <= j < outcomes.drop_last().len() ==> outcomes.drop_last()[j] == outcomes[j]);
        if outcomes.last() {
            assert(keys_of(tenants.take(outcomes.len() as int)) =~= keys_of(
                tenants.take(outcomes.len() - 1),
            ).push(tenants[outcomes.len() - 1].key()));
        }
    } else {
        assert(applied_keys(tenants, outcomes) =~= keys_of(tenants.take(0)));
    }
}

/// The positions that succeeded, in order.
pub open spec fn success_positions(outcomes: Seq<bool>) -> Seq<int> {
    Seq::new(outcomes.len(), |i: int| i).filter(|i: int| outcomes[i])
}

/// Law: the applied keys are exactly the selected tenants at the
/// positions that succeeded, in their original order; a skip-failed run
/// records an outcome for every selected tenant, so failures cost only
/// their own position.
pub proof fn lemma_applied_exactly_successes(tenants: Seq<TenantView>, outcomes: Seq<bool>)
    requires
        outcomes.len() <= tenants.len(),
    ensures
        applied_keys(tenants, outcomes) == success_positions(outcomes).map_values(
            |i: int| tenants[i].key(),
        ),
    decreases outcomes.len(),
{
    let n: int = outcomes.len() as int;
    if n > 0 {
        let prev = outcomes.drop_last();
        lemma_applied_exactly_successes(tenants, prev);
        let idx_prev = Seq::new(prev.len(), |i: int| i);
        let idx = Seq::new(outcomes.len(), |i: int| i);
        assert(idx =~= idx_prev.push(n - 1));
        let pred = |i: int| outcomes[i];
        let pred_prev = |i: int| prev[i];
        assert(idx_prev.filter(pred) =~= idx_prev.filter(pred_prev)) by {
            lemma_filter_agrees(idx_prev, pred, pred_prev);
        }
        lemma_filter_push(idx_prev, n - 1, pred);
        if outcomes.last() {
            assert(success_positions(outcomes) =~= success_positions(prev).push(n - 1));
            assert(success_positions(outcomes).map_values(|i: int| tenants[i].key())
                =~= success_positions(prev).map_values(|i: int| tenants[i].key()).push(
                tenants[n - 1].key(),
            ));
        } else {
            assert(success_positions(outcomes) =~= success_positions(prev));
        }
    } else {
        assert(applied_keys(tenants, outcomes) =~= success_positions(outcomes).map_values(
            |i: int| tenants[i].key(),
        ));
    }
}

/// Two predicates that agree on a sequence's elements filter it alike.
proof fn lemma_filter_agrees(s: Seq<int>, p: spec_fn(int) -> bool, q: spec_fn(int) -> bool)
    requires
        forall|i: int| 0 <= i < s.len() ==> p(#[trigger] s[i]) == q(s[i]),
    ensures
        s.filter(p) == s.filter(q),
    decreases s.len(),
{
    reveal(Seq::filter);
    if s.len() > 0 {
        lemma_filter_agrees(s.drop_last(), p, q);
        assert(s[s.len() - 1] == s.last());
    }
}

/// The outside steps of one tenant's migration, in order. The two
/// transactions are not coordinated by any distributed protocol; the
/// ordering below is the safety margin: the tenant's schema is durable
/// before the root ledger records the fact. If the root commit then
/// fails, the system believes the migration unapplied even though it ran
/// — recoverable through the pending-migrations read path, and safer
/// than the reverse ordering, which would record success without data.
#[derive(Clone, Copy, Debug, PartialEq, Eq, Structural)]
pub enum TenantMigrationStep {
    /// Open a connection to the tenant's database.
    ConnectTenant,
    /// Begin one transaction on the root connection and one on the
    /// tenant connection.
    BeginTransactions,
    /// Apply the pending migrations against both transactions.
    ApplyMigrations,
    /// Commit the tenant transaction.
    CommitTenant,
    /// Commit the root transaction, recording the migration in the
    /// ledger.
    CommitRoot,
}

/// The state of one tenant's migration.
#[derive(Clone, Copy, Debug, PartialEq, Eq, Structural)]
pub enum TenantMigrationState {
    /// The given step is next.
    Pending(TenantMigrationStep),
    /// Both commits succeeded.
    Done,
    /// A step failed; the tenant counts as not migrated.
    Failed(ServiceError),
}

/// The transition of one tenant's migration: each success advances to
/// the next step; a failed connection is a connection error, any other
/// failure a migration error.
pub open spec fn spec_tenant_migration_transition(
    state: TenantMigrationState,
    outcome: StepOutcome,
) -> TenantMigrationState {
    match state {
        TenantMigrationState::Pending(step) => match outcome {
            StepOutcome::Success => match step {
                TenantMigrationStep::ConnectTenant => TenantMigrationState::Pending(
                    TenantMigrationStep::BeginTransactions,
                ),
                TenantMigrationStep::BeginTransactions => TenantMigrationState::Pending(
                    TenantMigrationStep::ApplyMigrations,
                ),
                TenantMigrationStep::ApplyMigrations => TenantMigrationState::Pending(
                    TenantMigrationStep::CommitTenant,
                ),
                TenantMigrationStep::CommitTenant => TenantMigrationState::Pending(
                    TenantMigrationStep::CommitRoot,
                ),
                TenantMigrationStep::CommitRoot => TenantMigrationState::Done,
            },
            StepOutcome::Failure(_) => if step == TenantMigrationStep::ConnectTenant {
                TenantMigrationState::Failed(ServiceError::Connection)
            } else {
                TenantMigrationState::Failed(ServiceError::Migration)
            },
        },
        TenantMigrationState::Done => TenantMigrationState::Done,
        TenantMigrationState::Failed(e) => TenantMigrationState::Failed(e),
    }
}

/// Law: the root ledger commit is reachable only through a successful
/// tenant commit — the tenant's schema is durable before the root
/// records it.
pub proof fn lemma_root_commit_after_tenant_commit(
    state: TenantMigrationState,
    outcome: StepOutcome,
)
    ensures
        spec_tenant_migration_transition(state, outcome) == TenantMigrationState::Pending(
            TenantMigrationStep::CommitRoot,
        ) ==> (state == TenantMigrationState::Pending(TenantMigrationStep::CommitTenant) && outcome
            == StepOutcome::Success),
{
}

/// One tenant's migration run.
#[derive(Clone, Copy, Debug, PartialEq, Eq, Structural)]
pub struct TenantMigrationFlow {
    /// The current state.
    pub state: TenantMigrationState,
}

impl TenantMigrationFlow {
    /// A fresh run: the tenant connection is first.
    pub fn new() -> (r: TenantMigrationFlow)
        ensures
            r.state == TenantMigrationState::Pending(TenantMigrationStep::ConnectTenant),
    {
        TenantMigrationFlow {
            state: TenantMigrationState::Pending(TenantMigrationStep::ConnectTenant),
        }
    }

    /// The outside step the caller must perform next, if any.
    pub fn next_step(&self) -> (r: Option<TenantMigrationStep>)
        ensures
            match r {
                Some(step) => self.state == TenantMigrationState::Pending(step),
                None => self.state is Done || self.state is Failed,
            },
    {
        match self.state {
            TenantMigrationState::Pending(step) => Some(step),
            TenantMigrationState::Done => None,
            TenantMigrationState::Failed(_) => None,
        }
    }

    /// Feed back the outcome of the pending step.
    pub fn advance(&mut self, outcome: StepOutcome)
        requires
            old(self).state is Pending,
        ensures
            final(self).state == spec_tenant_migration_transition(old(self).state, outcome),
    {
        let next = match self.state {
            TenantMigrationState::Pending(step) => match outcome {
                StepOutcome::Success => match step {
                    TenantMigrationStep::ConnectTenant => TenantMigrationState::Pending(
                        TenantMigrationStep::BeginTransactions,
                    ),
                    TenantMigrationStep::BeginTransactions => TenantMigrationState::Pending(
                        TenantMigrationStep::ApplyMigrations,
                    ),
                    TenantMigrationStep::ApplyMigrations => TenantMigrationState::Pending(
                        TenantMigrationStep::CommitTenant,
                    ),
                    TenantMigrationStep::CommitTenant => TenantMigrationState::Pending(
                        TenantMigrationStep::CommitRoot,
                    ),
                    TenantMigrationStep::CommitRoot => TenantMigrationState::Done,
                },
                StepOutcome::Failure(_) => {
                    if step == TenantMigrationStep::ConnectTenant {
                        TenantMigrationState::Failed(ServiceError::Connection)
                    } else {
                        TenantMigrationState::Failed(ServiceError::Migration)
                    }
                },
            },
            TenantMigrationState::Done => TenantMigrationState::Done,
            TenantMigrationState::Failed(e) => TenantMigrationState::Failed(e),
        };
        self.state = next;
    }
}

/// The migrations in `known` not yet recorded in `applied`, in the order
/// `known` lists them.
pub open spec fn spec_pending(known: Seq<String>, applied: Seq<String>) -> Seq<Seq<char>> {
    known.map_values(|s: String| s@).filter(|m: Seq<char>| !spec_contains_str(applied, m))
}

/// The migration identifiers in `known` that are absent from `applied`,
/// keeping the order of `known`.
pub fn pending_migrations(known: &Vec<String>, applied: &Vec<String>) -> (r: Vec<String>)
    ensures
        r@.map_values(|s: String| s@) == spec_pending(known@, applied@),
{
    let ghost all = known@.map_values(|s: String| s@);
    let ghost pred = |m: Seq<char>| !spec_contains_str(applied@, m);
    let mut out: Vec<String> = Vec::new();
    let n: usize = known.len();
    let mut i: usize = 0;
    proof {
        assert(out@.map_values(|s: String| s@) =~= all.take(0).filter(pred));
    }
    while i < n
        invariant
            i <= n,
            n == known@.len(),
            all == known@.map_values(|s: String| s@),
            pred == (|m: Seq<char>| !spec_contains_str(applied@, m)),
            out@.map_values(|s: String| s@) == all.take(i as int).filter(pred),
        decreases n - i,
    {
        proof {
            assert(all.take(i as int + 1) =~= all.take(i as int).push(all[i as int]));
            lemma_filter_push(all.take(i as int), all[i as int], pred);
        }
        if !contains_str(applied, known[i].as_str()) {
            let dup = known[i].clone();
            out.push(dup);
        }
        proof {
            assert(out@.map_values(|s: String| s@) =~= all.take(i as int + 1).filter(pred));
        }
        i = i + 1;
    }
    proof {
        assert(all.take(n as int) =~= all);
    }
    out
}

/// One tenant together with its pending migrations.
#[derive(Debug)]
pub struct TenantWithMigrations {
    /// The tenant.
    pub tenant: Tenant,
    /// The migrations not yet applied to its database, in ledger order.
    pub migrations: Vec<String>,
}

/// Pair every tenant with its pending migrations. `applied_lists[i]` is
/// the applied-migration ledger read from `tenants[i]`'s own database; the
/// result preserves the tenant enumeration order, however the ledger reads
/// were interleaved.
pub fn collect_pending(
    tenants: &Vec<Tenant>,
    applied_lists: &Vec<Vec<String>>,
    known: &Vec<String>,
) -> (r: Vec<TenantWithMigrations>)
    requires
        applied_lists@.len() == tenants@.len(),
    ensures
        r@.len() == tenants@.len(),
        forall|i: int|
            0 <= i < r@.len() ==> (#[trigger] r@[i]).tenant@ == tenants@[i]@
                && r@[i].migrations@.map_values(|s: String| s@) == spec_pending(
                known@,
                applied_lists@[i]@,
            ),
{
    let mut out: Vec<TenantWithMigrations> = Vec::new();
    let n: usize = tenants.len();
    let mut i: usize = 0;
    while i < n
        invariant
            i <= n,
            n == tenants@.len(),
            applied_lists@.len() == n,
            out@.len() == i,
            forall|j: int|
                0 <= j < i ==> (#[trigger] out@[j]).tenant@ == tenants@[j]@
                    && out@[j].migrations@.map_values(|s: String| s@) == spec_pending(
                    known@,
                    applied_lists@[j]@,
                ),
        decreases n - i,
    {
        let t = tenants[i].clone();
        let pending = pending_migrations(known, &applied_lists[i]);
        out.push(TenantWithMigrations { tenant: t, migrations: pending });
        i = i + 1;
    }
    out
}

} // verus!
