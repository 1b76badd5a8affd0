//! What the library refuses, and how a wait can fail.

use crate::types::container_status::ContainerStatus;
use vstd::prelude::*;

verus! {

/// The errors of the lifecycle core.
#[derive(Debug, Clone, Copy, PartialEq, Eq)]
pub enum ContainerError {
    /// The requested change of status is not permitted from the current
    /// status. The record is as it was; the caller has to look at the actual
    /// state again before trying anything else.
    InvalidTransition { from: ContainerStatus, to: ContainerStatus },
    /// The record is held by a batch operation. The caller may try again
    /// later or give up, and never overrides the lock.
    AlreadyBatched,
    /// A wait reached its deadline before the container showed one of the
    /// statuses waited for.
    Timeout,
    /// The container vanished from the backing index during a wait.
    Removed,
    /// The caller abandoned a wait.
    Cancelled,
}

} // verus!
