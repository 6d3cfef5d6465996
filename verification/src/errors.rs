//! The failure taxonomy.
//!
//! Cluster API calls fail with a [`ClusterError`]; apply and cleanup handlers
//! fail with a [`HandlerError`]; the reconcile protocol wraps either in a
//! [`FinalizerError`] naming the step that failed; preflight validation
//! reports a [`PreflightError`] naming the check that failed.

use vstd::prelude::*;

verus! {

/// How a single cluster API call came back, as reported by the embedding
/// process: the object was missing, an optimistic-concurrency patch was
/// rejected, or the transport itself failed (network, auth, server error).
#[derive(Clone, Copy, Debug, PartialEq, Eq, Structural)]
pub enum ClusterError {
    NotFound,
    Conflict,
    Transport,
}

/// A failure of a caller-supplied apply or cleanup handler, carrying the
/// handler's own description of what went wrong.
#[derive(Clone, Debug, PartialEq, Eq)]
pub struct HandlerError {
    pub message: String,
}

impl HandlerError {
    pub open spec fn message_view(self) -> Seq<char> {
        self.message@
    }

    pub fn new(message: String) -> (r: HandlerError)
        ensures
            r.message_view() == message@,
    {
        HandlerError { message }
    }
}

/// A failure of one reconcile invocation, naming the step of the finalizer
/// protocol that failed: one of the two handlers, or one of the two
/// finalizer patches.
#[derive(Clone, Debug, PartialEq, Eq)]
pub enum FinalizerError {
    ApplyFailed(HandlerError),
    CleanupFailed(HandlerError),
    AddFinalizer(ClusterError),
    RemoveFinalizer(ClusterError),
}

/// A failure of the startup checks for one controller, distinguishing a
/// missing namespace from an uninstalled or unqueryable resource type from a
/// plain transport failure.
#[derive(Clone, Copy, Debug, PartialEq, Eq, Structural)]
pub enum PreflightError {
    NamespaceNotFound,
    ResourceTypeNotQueryable,
    Transport,
}

} // verus!
