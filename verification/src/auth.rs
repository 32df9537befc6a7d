//! Authentication at the management surface: a single shared password
//! opens a session; every tenant and root route demands an authenticated
//! session.
//!
//! Session storage and the middleware gate are outside collaborators;
//! the library holds the one decision, whether a presented password
//! matches the configured one.

use vstd::prelude::*;

use crate::strutil::str_eq;

verus! {

/// Witness that the caller's session is authenticated. Handed out by the
/// surrounding application only after a successful check.
#[derive(Clone, Copy, Debug, Default)]
pub struct Authenticated;

/// Request to authenticate with the management password.
#[derive(Debug)]
pub struct AuthenticateRequest {
    /// The presented password.
    pub password: String,
}

/// Response to the authentication check.
#[derive(Clone, Copy, Debug, PartialEq, Eq, Structural)]
pub struct IsAuthenticatedResponse {
    /// Whether the caller's session is authenticated.
    pub authenticated: bool,
}

/// Whether the presented password matches the configured one, character
/// for character.
pub fn verify_password(presented: &str, configured: &str) -> (r: bool)
    ensures
        r == (presented@ == configured@),
{
    str_eq(presented, configured)
}

} // verus!
