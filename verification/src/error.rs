//! The ways in which a boot attempt fails, with what each carries for the
//! diagnostic stream.

use crate::boot::FailureKind;
use vstd::prelude::*;

verus! {

/// A failed boot attempt. None of these is retried.
#[derive(Debug)]
pub enum BootError {
    /// No candidate executable exists; these are all the paths tried, in order.
    BackendNotFound(Vec<String>),
    /// The operating system refused to create the process; this is its reason.
    SpawnFailed(String),
    /// No valid handshake appeared at this path within the budget.
    HandshakeTimeout(String),
    /// This address never answered with success within the budget.
    HealthCheckTimeout(String),
    /// The surface that should show the backend is not there.
    PresentationMissing,
}

impl BootError {
    /// The kind of this failure, without what it carries.
    pub open spec fn kind_of(&self) -> FailureKind {
        match self {
            BootError::BackendNotFound(_) => FailureKind::BackendNotFound,
            BootError::SpawnFailed(_) => FailureKind::SpawnFailed,
            BootError::HandshakeTimeout(_) => FailureKind::HandshakeTimeout,
            BootError::HealthCheckTimeout(_) => FailureKind::HealthCheckTimeout,
            BootError::PresentationMissing => FailureKind::PresentationMissing,
        }
    }

    /// The kind of this failure, without what it carries.
    pub fn kind(&self) -> (kind: FailureKind)
        ensures
            kind == self.kind_of(),
    {
        match self {
            BootError::BackendNotFound(_) => FailureKind::BackendNotFound,
            BootError::SpawnFailed(_) => FailureKind::SpawnFailed,
            BootError::HandshakeTimeout(_) => FailureKind::HandshakeTimeout,
            BootError::HealthCheckTimeout(_) => FailureKind::HealthCheckTimeout,
            BootError::PresentationMissing => FailureKind::PresentationMissing,
        }
    }
}

} // verus!
