//! The workspace controller's own error and metrics types.

use vstd::prelude::*;

use crate::errors::{ClusterError, FinalizerError};

verus! {

/// Failures of the workspace controller as surfaced to composition: a
/// cluster call failed, or the finalizer protocol failed around a handler.
#[derive(Clone, Debug, PartialEq, Eq)]
pub enum WorkspaceError {
    KubeError(ClusterError),
    FinalizerError(FinalizerError),
}

impl From<ClusterError> for WorkspaceError {
    fn from(e: ClusterError) -> (r: WorkspaceError) {
        WorkspaceError::KubeError(e)
    }
}

impl vstd::std_specs::convert::FromSpecImpl<ClusterError> for WorkspaceError {
    open spec fn obeys_from_spec() -> bool {
        true
    }

    open spec fn from_spec(e: ClusterError) -> WorkspaceError {
        WorkspaceError::KubeError(e)
    }
}

impl From<FinalizerError> for WorkspaceError {
    fn from(e: FinalizerError) -> (r: WorkspaceError) {
        WorkspaceError::FinalizerError(e)
    }
}

impl vstd::std_specs::convert::FromSpecImpl<FinalizerError> for WorkspaceError {
    open spec fn obeys_from_spec() -> bool {
        true
    }

    open spec fn from_spec(e: FinalizerError) -> WorkspaceError {
        WorkspaceError::FinalizerError(e)
    }
}

} // verus!
