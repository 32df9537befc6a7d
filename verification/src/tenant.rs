//! The tenant: the unit of isolation.
//!
//! A tenant is identified by the composite key `(env, id)` and carries the
//! names of its backing resources: database, database role, credential
//! secret, storage bucket and search index. The registry (see
//! [`crate::registry`]) is the source of truth for whether a tenant exists.
//!
//! Contracts speak of tenants through [`TenantView`], the mathematical
//! image of a record: strings become character sequences, and nothing else
//! changes.

use vstd::prelude::*;

verus! {

/// The mathematical image of a tenant record.
#[verifier::ext_equal]
pub ghost struct TenantView {
    pub env: Seq<char>,
    pub id: u128,
    pub name: Seq<char>,
    pub db_name: Seq<char>,
    pub db_secret_name: Seq<char>,
    pub db_role_name: Seq<char>,
    pub storage_bucket_name: Seq<char>,
    pub storage_cors_origins: Seq<Seq<char>>,
    pub storage_s3_queue_arn: Option<Seq<char>>,
    pub search_index_name: Seq<char>,
    pub event_queue_url: Option<Seq<char>>,
}

impl TenantView {
    /// The composite key of a tenant.
    pub open spec fn key(self) -> (Seq<char>, u128) {
        (self.env, self.id)
    }
}

/// The view of an optional string: the character sequence, if present.
pub open spec fn opt_str_view(s: Option<String>) -> Option<Seq<char>> {
    match s {
        Option::Some(v) => Option::Some(v@),
        Option::None => Option::None,
    }
}

/// The views of a list of strings, in order.
pub open spec fn str_seq_view(s: Seq<String>) -> Seq<Seq<char>> {
    s.map_values(|v: String| v@)
}

/// A tenant record, as held in the root registry.
#[derive(Debug)]
pub struct Tenant {
    /// Environment the tenant lives in; half of the composite key.
    pub env: String,
    /// Unique identifier inside the environment; the 128 bits of the
    /// tenant's UUID.
    pub id: u128,
    /// Display name.
    pub name: String,
    /// Name of the tenant's own logical database; unique across tenants.
    pub db_name: String,
    /// Secret-store entry holding the tenant role's credentials.
    pub db_secret_name: String,
    /// Name of the restricted database role scoped to the tenant database.
    pub db_role_name: String,
    /// Name of the tenant's storage bucket.
    pub storage_bucket_name: String,
    /// Origins allowed for presigned uploads, in configuration order.
    pub storage_cors_origins: Vec<String>,
    /// Queue that storage notifications are published to, if any.
    pub storage_s3_queue_arn: Option<String>,
    /// Name of the tenant's search index.
    pub search_index_name: String,
    /// URL of the tenant's event queue, if any.
    pub event_queue_url: Option<String>,
}

impl View for Tenant {
    type V = TenantView;

    open spec fn view(&self) -> TenantView {
        TenantView {
            env: self.env@,
            id: self.id,
            name: self.name@,
            db_name: self.db_name@,
            db_secret_name: self.db_secret_name@,
            db_role_name: self.db_role_name@,
            storage_bucket_name: self.storage_bucket_name@,
            storage_cors_origins: str_seq_view(self.storage_cors_origins@),
            storage_s3_queue_arn: opt_str_view(self.storage_s3_queue_arn),
            search_index_name: self.search_index_name@,
            event_queue_url: opt_str_view(self.event_queue_url),
        }
    }
}

impl Clone for Tenant {
    /// A clone is equal to the original in every field.
    fn clone(&self) -> (res: Self)
        ensures
            res@ == self@,
    {
        let res = Tenant {
            env: self.env.clone(),
            id: self.id,
            name: self.name.clone(),
            db_name: self.db_name.clone(),
            db_secret_name: self.db_secret_name.clone(),
            db_role_name: self.db_role_name.clone(),
            storage_bucket_name: self.storage_bucket_name.clone(),
            storage_cors_origins: self.storage_cors_origins.clone(),
            storage_s3_queue_arn: self.storage_s3_queue_arn.clone(),
            search_index_name: self.search_index_name.clone(),
            event_queue_url: self.event_queue_url.clone(),
        };
        proof {
            assert(str_seq_view(res.storage_cors_origins@) =~= str_seq_view(
                self.storage_cors_origins@,
            ));
            assert(res@ =~= self@);
        }
        res
    }
}

/// Request to create a tenant: the full resource-name set the
/// provisioning workflow will realise.
#[derive(Debug)]
pub struct CreateTenant {
    /// Unique identifier for the tenant inside `env`.
    pub id: u128,
    /// Display name.
    pub name: String,
    /// Environment the tenant will live in.
    pub env: String,
    /// Database name for the tenant.
    pub db_name: String,
    /// Secret-store entry the role credentials will be stored under.
    pub db_secret_name: String,
    /// Name for the tenant's database role.
    pub db_role_name: String,
    /// Name of the tenant's storage bucket.
    pub storage_bucket_name: String,
    /// Origins allowed for presigned uploads.
    pub storage_cors_origins: Vec<String>,
    /// Queue for storage notifications, required for presigned uploads.
    pub storage_s3_queue_arn: Option<String>,
    /// Name of the tenant's search index.
    pub search_index_name: String,
    /// URL of the tenant's event queue, if any.
    pub event_queue_url: Option<String>,
}

impl View for CreateTenant {
    /// A creation request describes the tenant it will produce, so it
    /// shares the tenant's view.
    type V = TenantView;

    open spec fn view(&self) -> TenantView {
        TenantView {
            env: self.env@,
            id: self.id,
            name: self.name@,
            db_name: self.db_name@,
            db_secret_name: self.db_secret_name@,
            db_role_name: self.db_role_name@,
            storage_bucket_name: self.storage_bucket_name@,
            storage_cors_origins: str_seq_view(self.storage_cors_origins@),
            storage_s3_queue_arn: opt_str_view(self.storage_s3_queue_arn),
            search_index_name: self.search_index_name@,
            event_queue_url: opt_str_view(self.event_queue_url),
        }
    }
}

impl CreateTenant {
    /// The tenant record that provisioning this request produces.
    pub fn into_tenant(self) -> (t: Tenant)
        ensures
            t@ == self@,
    {
        Tenant {
            env: self.env,
            id: self.id,
            name: self.name,
            db_name: self.db_name,
            db_secret_name: self.db_secret_name,
            db_role_name: self.db_role_name,
            storage_bucket_name: self.storage_bucket_name,
            storage_cors_origins: self.storage_cors_origins,
            storage_s3_queue_arn: self.storage_s3_queue_arn,
            search_index_name: self.search_index_name,
            event_queue_url: self.event_queue_url,
        }
    }
}

impl Clone for CreateTenant {
    /// A clone is equal to the original in every field.
    fn clone(&self) -> (res: Self)
        ensures
            res@ == self@,
    {
        let res = CreateTenant {
            id: self.id,
            name: self.name.clone(),
            env: self.env.clone(),
            db_name: self.db_name.clone(),
            db_secret_name: self.db_secret_name.clone(),
            db_role_name: self.db_role_name.clone(),
            storage_bucket_name: self.storage_bucket_name.clone(),
            storage_cors_origins: self.storage_cors_origins.clone(),
            storage_s3_queue_arn: self.storage_s3_queue_arn.clone(),
            search_index_name: self.search_index_name.clone(),
            event_queue_url: self.event_queue_url.clone(),
        };
        proof {
            assert(str_seq_view(res.storage_cors_origins@) =~= str_seq_view(
                self.storage_cors_origins@,
            ));
            assert(res@ =~= self@);
        }
        res
    }
}

} // verus!
