//! The foreground project-open status the daemon reports while a project is
//! being admitted.

use vstd::prelude::*;

verus! {

/// Whether a project open is still converging, done, or stalled.
#[derive(Clone, Copy, Debug, PartialEq, Eq, Structural)]
pub enum ProjectOpenStatusStateV1 {
    Converging,
    Completed,
    Stalled,
}

/// Why a project open is in its current state.
#[derive(Clone, Copy, Debug, PartialEq, Eq, Structural)]
pub enum ProjectOpenStatusReasonV1 {
    Converging,
    Ready,
    UnrepairableVerdict,
    DeferredRepositoryDiscovery,
    RetryBackoff,
    Unavailable,
}

/// A project-open status with its optional retry delay and detail.
#[derive(Clone, Debug, PartialEq, Eq)]
pub struct ProjectOpenStatusV1 {
    pub state: ProjectOpenStatusStateV1,
    pub reason: ProjectOpenStatusReasonV1,
    pub retry_after_ms: Option<u64>,
    pub detail: Option<String>,
}

} // verus!
