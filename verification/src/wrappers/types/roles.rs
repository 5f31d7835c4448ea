//! Role types.

use vstd::prelude::*;

verus! {

/// A Discord role.
#[derive(Debug, Clone, Copy, PartialEq, Eq)]
pub struct Role {
    /// The role's ID.
    pub id: u64,
}

/// A role mentioned in a message.
#[derive(Debug, Clone, Copy, PartialEq, Eq)]
pub struct RoleMention {
    /// The role's ID.
    pub id: u64,
}

} // verus!
