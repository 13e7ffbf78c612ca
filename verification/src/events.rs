//! Observable changes reported to hosts.

use vstd::prelude::*;

use crate::ids::WorkspaceId;

verus! {

/// Emitted after the active internal workspace changes.
#[derive(Clone, Debug, PartialEq, Eq)]
pub struct WorkspaceChanged {
    /// Workspace that was active before the switch.
    pub previous: WorkspaceId,
    /// Workspace active after the switch.
    pub active: WorkspaceId,
}

} // verus!
