//! Error taxonomy of the control plane.
//!
//! Database error codes are the one place where code inspection substitutes
//! for typed errors: the data-access boundary turns a raw SQLSTATE code into
//! a [`DbErrorKind`], and the layers above compare variants, never codes.

use vstd::prelude::*;

use crate::strutil::str_eq;

verus! {

/// Classified database error, derived from a SQLSTATE code.
#[derive(Clone, Copy, Debug, PartialEq, Eq, Structural)]
pub enum DbErrorKind {
    /// The database being created already exists (SQLSTATE 42P04).
    DuplicateDatabase,
    /// The object (role, relation, ...) being created already exists
    /// (SQLSTATE 42710).
    DuplicateObject,
    /// The database named in a connection attempt does not exist
    /// (SQLSTATE 3D000).
    UndefinedDatabase,
    /// The relation named in a query does not exist (SQLSTATE 42P01).
    UndefinedTable,
    /// Any other database failure.
    Other,
}

/// Errors surfaced by the control plane's operations.
#[derive(Clone, Copy, Debug, PartialEq, Eq, Structural)]
pub enum ServiceError {
    /// A database could not be reached; fatal to the enclosing operation.
    Connection,
    /// A record or resource with the same identity already exists.
    ResourceExists,
    /// A lookup found no matching tenant.
    NotFound,
    /// A provisioning step after the initial database creation failed;
    /// already-completed steps are left in place.
    PartialProvisioning,
    /// One tenant's migration failed.
    Migration,
    /// The downstream service was unreachable or answered malformed.
    UpstreamProxy,
    /// The caller holds no authenticated session.
    Auth,
}

/// The HTTP status under which a [`ServiceError`] surfaces to a caller:
/// a missing tenant is a 404, a missing session a 401, and everything
/// else a 500; internal detail never leaks beyond the status.
pub fn http_status(error: &ServiceError) -> (status: u16)
    ensures
        status == spec_http_status(*error),
{
    match error {
        ServiceError::NotFound => 404,
        ServiceError::Auth => 401,
        ServiceError::Connection => 500,
        ServiceError::ResourceExists => 500,
        ServiceError::PartialProvisioning => 500,
        ServiceError::Migration => 500,
        ServiceError::UpstreamProxy => 500,
    }
}

/// Status mapping of the error taxonomy.
pub open spec fn spec_http_status(error: ServiceError) -> u16 {
    match error {
        ServiceError::NotFound => 404u16,
        ServiceError::Auth => 401u16,
        _ => 500u16,
    }
}

/// The classification of a SQLSTATE code: the four codes the control
/// plane steers by, and `Other` for everything else.
pub open spec fn spec_classify_sqlstate(code: Seq<char>) -> DbErrorKind {
    if code == "42P04"@ {
        DbErrorKind::DuplicateDatabase
    } else if code == "42710"@ {
        DbErrorKind::DuplicateObject
    } else if code == "3D000"@ {
        DbErrorKind::UndefinedDatabase
    } else if code == "42P01"@ {
        DbErrorKind::UndefinedTable
    } else {
        DbErrorKind::Other
    }
}

/// Classify a raw SQLSTATE code. This is the only place a database error
/// code is inspected; everything above compares [`DbErrorKind`] variants.
pub fn classify_sqlstate(code: &str) -> (kind: DbErrorKind)
    ensures
        kind == spec_classify_sqlstate(code@),
{
    if str_eq(code, "42P04") {
        DbErrorKind::DuplicateDatabase
    } else if str_eq(code, "42710") {
        DbErrorKind::DuplicateObject
    } else if str_eq(code, "3D000") {
        DbErrorKind::UndefinedDatabase
    } else if str_eq(code, "42P01") {
        DbErrorKind::UndefinedTable
    } else {
        DbErrorKind::Other
    }
}

/// The outcome of one outside step: a database statement, a connection
/// attempt, a secret-store write or a delegated routine. A failure
/// carries its classified kind; failures without a SQLSTATE are handed in
/// as [`DbErrorKind::Other`].
#[derive(Clone, Copy, Debug, PartialEq, Eq, Structural)]
pub enum StepOutcome {
    /// The step succeeded.
    Success,
    /// The step failed with the classified kind.
    Failure(DbErrorKind),
}

} // verus!
