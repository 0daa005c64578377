//! The three logical operations of the registry, as plain message types.
//!
//! The wire framing of these messages is the dispatch layer's concern;
//! here they carry plain values only.

use vstd::prelude::*;
use crate::state::Tag;

verus! {

/// Initialization carries no payload; the caller of initialization
/// becomes the administrator.
#[derive(Clone, Debug, PartialEq, Eq)]
pub struct InstantiateMsg {}

/// A state-changing operation.
#[derive(Clone, Debug, PartialEq, Eq)]
pub enum ExecuteMsg {
    /// Register a new tag record (admin only, id must be absent).
    Register { tag: Tag },
    /// Validate a reader submission for the tag whose 56-bit identifier
    /// is `id`.
    Validate { id: u64, count: u32, signature: [u8; 8] },
}

/// A read-only operation.
#[derive(Clone, Debug, PartialEq, Eq)]
pub enum QueryMsg {
    /// Ask for the administrator's identity.
    GetAdmin,
}

/// The answer to `QueryMsg::GetAdmin`.
#[derive(Clone, Debug, PartialEq, Eq)]
pub struct AdminResponse {
    pub admin: String,
}

} // verus!
