//! Control plane for a multi-tenant document-management platform.
//!
//! The library covers the tenant lifecycle: provisioning a tenant's backing
//! resources, tracking tenant records in a root registry, applying schema
//! migrations across tenants with a partial-failure policy, and planning the
//! forwarding of tenant-scoped requests to a downstream service.
//!
//! Everything that touches the network (database connections, the secret
//! store, the downstream HTTP service) is performed by the surrounding
//! application; the library holds the decisions: which tenants to touch, in
//! which order, what counts as success, and what exactly is forwarded.

pub mod assets;
pub mod auth;
pub mod config;
pub mod error;
pub mod gateway;
pub mod init;
pub mod migrate;
pub mod password;
pub mod provision;
pub mod registry;
pub mod seqext;
pub mod strutil;
pub mod tenant;

pub use auth::Authenticated;
pub use auth::AuthenticateRequest;
pub use auth::IsAuthenticatedResponse;
pub use config::DatabaseConfig;
pub use config::DatabaseProvider;
pub use config::ServerPassword;
pub use error::DbErrorKind;
pub use error::ServiceError;
pub use init::IsInitializedResponse;
pub use migrate::TenantWithMigrations;
pub use password::random_password;
pub use registry::Registry;
pub use tenant::CreateTenant;
pub use tenant::Tenant;
