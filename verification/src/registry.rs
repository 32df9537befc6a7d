//! The tenant registry: the root-database-backed catalog of tenant
//! records, modelled as an ordered relation with a unique composite key.
//!
//! The registry is the source of truth for "does this tenant exist". Rows
//! keep their insertion order, which is also the order the migration
//! engine walks them in.

use vstd::prelude::*;

use crate::error::ServiceError;
use crate::seqext::lemma_filter_all_true;
use crate::seqext::lemma_filter_distinct_keys;
use crate::seqext::lemma_filter_push;
use crate::strutil::str_eq;
use crate::tenant::Tenant;
use crate::tenant::TenantView;

verus! {

/// Whether a row carries the composite key `(env, id)`.
pub open spec fn key_matches(t: TenantView, env: Seq<char>, id: u128) -> bool {
    t.env == env && t.id == id
}

/// The first row carrying the key `(env, id)`, if any.
pub open spec fn spec_find(rows: Seq<TenantView>, env: Seq<char>, id: u128) -> Option<TenantView>
    decreases rows.len(),
{
    if rows.len() == 0 {
        None
    } else if key_matches(rows[0], env, id) {
        Some(rows[0])
    } else {
        spec_find(rows.drop_first(), env, id)
    }
}

/// A lookup misses exactly when no row carries the key.
pub proof fn lemma_find_none(rows: Seq<TenantView>, env: Seq<char>, id: u128)
    ensures
        (spec_find(rows, env, id) is None) <==> (forall|j: int|
            0 <= j < rows.len() ==> !key_matches(#[trigger] rows[j], env, id)),
    decreases rows.len(),
{
    if rows.len() > 0 {
        lemma_find_none(rows.drop_first(), env, id);
        if spec_find(rows, env, id) is None {
            assert forall|j: int| 0 <= j < rows.len() implies !key_matches(
                #[trigger] rows[j],
                env,
                id,
            ) by {
                if j > 0 {
                    assert(rows.drop_first()[j - 1] == rows[j]);
                }
            }
        } else {
            if !key_matches(rows[0], env, id) {
                let j = choose|j: int|
                    0 <= j < rows.drop_first().len() && key_matches(
                        rows.drop_first()[j],
                        env,
                        id,
                    );
                assert(rows[j + 1] == rows.drop_first()[j]);
            }
        }
    }
}

/// Whether some row already uses the database name.
pub open spec fn spec_db_name_taken(rows: Seq<TenantView>, name: Seq<char>) -> bool {
    exists|i: int| 0 <= i < rows.len() && (#[trigger] rows[i]).db_name == name
}

/// Law: inserting a tenant whose key is absent and then finding it by
/// `(env, id)` returns exactly the inserted record.
pub proof fn lemma_insert_find_round_trip(rows: Seq<TenantView>, t: TenantView)
    requires
        spec_find(rows, t.env, t.id) is None,
    ensures
        spec_find(rows.push(t), t.env, t.id) == Some(t),
    decreases rows.len(),
{
    if rows.len() == 0 {
        assert(rows.push(t)[0] == t);
    } else {
        assert(rows.push(t)[0] == rows[0]);
        assert(rows.push(t).drop_first() =~= rows.drop_first().push(t));
        lemma_insert_find_round_trip(rows.drop_first(), t);
    }
}

/// The root registry relation: tenant rows in insertion order, with
/// pairwise distinct `(env, id)` keys.
#[derive(Debug)]
pub struct Registry {
    rows: Vec<Tenant>,
}

impl View for Registry {
    type V = Seq<TenantView>;

    closed spec fn view(&self) -> Seq<TenantView> {
        self.rows@.map_values(|t: Tenant| t@)
    }
}

impl Registry {
    /// Well-formedness: no two rows share a composite key, and no two
    /// rows share a database name.
    pub open spec fn wf(&self) -> bool {
        &&& forall|i: int, j: int| 0 <= i < j < self@.len() ==> self@[i].key() != self@[j].key()
        &&& forall|i: int, j: int|
            0 <= i < j < self@.len() ==> self@[i].db_name != self@[j].db_name
    }

    /// An empty registry.
    pub fn new() -> (r: Registry)
        ensures
            r@ == Seq::<TenantView>::empty(),
            r.wf(),
    {
        let r = Registry { rows: Vec::new() };
        proof {
            assert(r@ =~= Seq::<TenantView>::empty());
        }
        r
    }

    /// All rows, in registry order.
    pub fn all(&self) -> (r: &Vec<Tenant>)
        ensures
            r@.map_values(|t: Tenant| t@) == self@,
    {
        &self.rows
    }

    /// The rows of one environment, in registry order.
    pub fn all_by_env(&self, env: &str) -> (r: Vec<Tenant>)
        ensures
            r@.map_values(|t: Tenant| t@) == self@.filter(|t: TenantView| t.env == env@),
    {
        let ghost pred = |t: TenantView| t.env == env@;
        let mut out: Vec<Tenant> = Vec::new();
        let n: usize = self.rows.len();
        let mut i: usize = 0;
        proof {
            assert(out@.map_values(|t: Tenant| t@) =~= self@.take(0).filter(pred));
        }
        while i < n
            invariant
                i <= n,
                n == self.rows@.len(),
                self@.len() == n,
                forall|j: int| 0 <= j < n ==> self@[j] == #[trigger] self.rows@[j]@,
                out@.map_values(|t: Tenant| t@) == self@.take(i as int).filter(pred),
                pred == (|t: TenantView| t.env == env@),
            decreases n - i,
        {
            proof {
                assert(self@.take(i as int + 1) =~= self@.take(i as int).push(self@[i as int]));
                lemma_filter_push(self@.take(i as int), self@[i as int], pred);
            }
            let row = &self.rows[i];
            if str_eq(row.env.as_str(), env) {
                let dup = row.clone();
                out.push(dup);
                proof {
                    assert(out@.map_values(|t: Tenant| t@) =~= self@.take(i as int + 1).filter(
                        pred,
                    ));
                }
            } else {
                proof {
                    assert(out@.map_values(|t: Tenant| t@) =~= self@.take(i as int + 1).filter(
                        pred,
                    ));
                }
            }
            i = i + 1;
        }
        proof {
            assert(self@.take(n as int) =~= self@);
        }
        out
    }

    /// The row with key `(env, id)`, if any.
    pub fn find(&self, env: &str, id: u128) -> (r: Option<&Tenant>)
        ensures
            match r {
                Some(t) => spec_find(self@, env@, id) == Some(t@),
                None => spec_find(self@, env@, id) is None,
            },
    {
        let n: usize = self.rows.len();
        let mut i: usize = 0;
        proof {
            assert(self@.skip(0) =~= self@);
        }
        while i < n
            invariant
                i <= n,
                n == self.rows@.len(),
                self@.len() == n,
                forall|j: int| 0 <= j < n ==> self@[j] == #[trigger] self.rows@[j]@,
                spec_find(self@, env@, id) == spec_find(self@.skip(i as int), env@, id),
            decreases n - i,
        {
            let row = &self.rows[i];
            proof {
                assert(self@.skip(i as int)[0] == self@[i as int]);
                assert(self@.skip(i as int).drop_first() =~= self@.skip(i as int + 1));
            }
            if row.id == id && str_eq(row.env.as_str(), env) {
                return Some(row);
            }
            i = i + 1;
        }
        proof {
            assert(self@.skip(n as int) =~= Seq::<TenantView>::empty());
        }
        None
    }

    /// Whether some row already uses the database name.
    pub fn db_name_in_use(&self, name: &str) -> (r: bool)
        ensures
            r == spec_db_name_taken(self@, name@),
    {
        let n: usize = self.rows.len();
        let mut i: usize = 0;
        while i < n
            invariant
                i <= n,
                n == self.rows@.len(),
                self@.len() == n,
                forall|j: int| 0 <= j < n ==> self@[j] == #[trigger] self.rows@[j]@,
                forall|j: int| 0 <= j < i ==> (#[trigger] self@[j]).db_name != name@,
            decreases n - i,
        {
            if str_eq(self.rows[i].db_name.as_str(), name) {
                proof {
                    assert((#[trigger] self@[i as int]).db_name == name@);
                }
                return true;
            }
            i = i + 1;
        }
        false
    }

    /// Insert a row. Fails, leaving the registry unchanged, exactly when
    /// a row with the same key, or one with the same database name, is
    /// already present.
    pub fn insert(&mut self, t: Tenant) -> (r: Result<(), ServiceError>)
        requires
            old(self).wf(),
        ensures
            final(self).wf(),
            match r {
                Ok(()) => spec_find(old(self)@, t@.env, t@.id) is None && !spec_db_name_taken(
                    old(self)@,
                    t@.db_name,
                ) && final(self)@ == old(self)@.push(t@),
                Err(e) => e == ServiceError::ResourceExists && (spec_find(
                    old(self)@,
                    t@.env,
                    t@.id,
                ) is Some || spec_db_name_taken(old(self)@, t@.db_name)) && final(self)@ == old(
                    self,
                )@,
            },
    {
        let present = self.find(t.env.as_str(), t.id).is_some();
        if present || self.db_name_in_use(t.db_name.as_str()) {
            return Err(ServiceError::ResourceExists);
        }
        proof {
            lemma_find_none(self@, t@.env, t@.id);
        }
        self.rows.push(t);
        proof {
            assert(self@ =~= old(self)@.push(t@));
        }
        Ok(())
    }

    /// Delete the row with key `(env, id)`. The remaining rows keep their
    /// order; the call fails exactly when no such row exists.
    pub fn delete(&mut self, env: &str, id: u128) -> (r: Result<(), ServiceError>)
        requires
            old(self).wf(),
        ensures
            final(self).wf(),
            final(self)@ == old(self)@.filter(|t: TenantView| !key_matches(t, env@, id)),
            match r {
                Ok(()) => spec_find(old(self)@, env@, id) is Some,
                Err(e) => e == ServiceError::NotFound && spec_find(old(self)@, env@, id) is None
                    && final(self)@ == old(self)@,
            },
    {
        let ghost pred = |t: TenantView| !key_matches(t, env@, id);
        let mut kept: Vec<Tenant> = Vec::new();
        let mut found = false;
        let n: usize = self.rows.len();
        let mut i: usize = 0;
        proof {
            assert(kept@.map_values(|t: Tenant| t@) =~= self@.take(0).filter(pred));
        }
        while i < n
            invariant
                i <= n,
                n == self.rows@.len(),
                self@.len() == n,
                forall|j: int| 0 <= j < n ==> self@[j] == #[trigger] self.rows@[j]@,
                kept@.map_values(|t: Tenant| t@) == self@.take(i as int).filter(pred),
                pred == (|t: TenantView| !key_matches(t, env@, id)),
                found <==> (exists|j: int|
                    0 <= j < i && key_matches(#[trigger] self@[j], env@, id)),
            decreases n - i,
        {
            proof {
                assert(self@.take(i as int + 1) =~= self@.take(i as int).push(self@[i as int]));
                lemma_filter_push(self@.take(i as int), self@[i as int], pred);
            }
            let row = &self.rows[i];
            if row.id == id && str_eq(row.env.as_str(), env) {
                found = true;
            } else {
                let dup = row.clone();
                kept.push(dup);
            }
            proof {
                assert(kept@.map_values(|t: Tenant| t@) =~= self@.take(i as int + 1).filter(pred));
            }
            i = i + 1;
        }
        proof {
            assert(self@.take(n as int) =~= self@);
            lemma_find_none(self@, env@, id);
            lemma_filter_distinct_keys(self@, pred, |t: TenantView| t.key());
            lemma_filter_distinct_keys(self@, pred, |t: TenantView| t.db_name);
            if !found {
                lemma_filter_all_true(self@, pred);
            }
        }
        self.rows = kept;
        if found {
            Ok(())
        } else {
            Err(ServiceError::NotFound)
        }
    }
}

} // verus!
