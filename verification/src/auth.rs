//! The caller identity the flow layer threads through runs and sessions.

use vstd::prelude::*;

use crate::json::JsonValue;

verus! {

/// Authorisation role of a principal.
#[derive(Debug, Clone, Copy, PartialEq, Eq)]
pub enum Role {
    /// Full administrative rights.
    Admin,
}

/// An authenticated caller: who it is, its role, its granted scopes and
/// whatever else the authentication layer attached.
#[derive(Debug)]
pub struct Principal {
    /// Stable subject identifier (e.g. `system/Admin`).
    pub subject: String,
    /// Role.
    pub role: Role,
    /// Granted scopes.
    pub scopes: Vec<String>,
    /// Extra claims.
    pub extra: JsonValue,
}

} // verus!
