//! The Terraform workspace resource type: the one concrete controller this
//! process hosts. Its business logic is a placeholder that re-queues on
//! apply and waits on cleanup; the interesting part is its participation in
//! the finalizer protocol and in composition.

use vstd::prelude::*;

use crate::action::Action;
use crate::controller::{Controller, Reconcilable, ReconcileContext};
use crate::errors::{ClusterError, FinalizerError, HandlerError};
use crate::resource::ResourceObject;

verus! {

/// Which provider backs a workspace.
#[derive(Clone, Copy, Debug, PartialEq, Eq, Structural)]
pub enum TerraformWorkspaceProviderName {
    TerraformCloud,
}

impl Default for TerraformWorkspaceProviderName {
    fn default() -> (r: TerraformWorkspaceProviderName)
        ensures
            r == TerraformWorkspaceProviderName::TerraformCloud,
    {
        TerraformWorkspaceProviderName::TerraformCloud
    }
}

/// The provider a workspace runs under.
#[derive(Clone, Copy, Debug, PartialEq, Eq, Structural)]
pub struct TerraformWorkspaceProvider {
    pub name: TerraformWorkspaceProviderName,
}

impl Default for TerraformWorkspaceProvider {
    fn default() -> (r: TerraformWorkspaceProvider)
        ensures
            r == (TerraformWorkspaceProvider { name: TerraformWorkspaceProviderName::TerraformCloud }),
    {
        TerraformWorkspaceProvider { name: TerraformWorkspaceProviderName::TerraformCloud }
    }
}

/// Desired state of a workspace.
#[derive(Clone, Copy, Debug, PartialEq, Eq, Structural)]
pub struct TerraformWorkspaceSpec {
    pub provider: TerraformWorkspaceProvider,
}

/// Observed state of a workspace. Nothing is tracked yet.
#[derive(Clone, Copy, Debug, PartialEq, Eq, Structural)]
pub struct TerraformWorkspaceStatus {

}

/// Connection settings for the Terraform Cloud provider. None are needed
/// yet.
#[derive(Clone, Copy, Debug, PartialEq, Eq, Structural)]
pub struct TerraformCloudConfig;

/// A workspace object as observed from the cluster.
pub type TerraformWorkspace = ResourceObject<TerraformWorkspaceSpec, TerraformWorkspaceStatus>;

/// Failures of the workspace controller: a cluster call failed, or the
/// finalizer protocol failed around a handler.
#[derive(Clone, Debug, PartialEq, Eq)]
pub enum TerraformWorkspaceError {
    KubeError(ClusterError),
    FinalizerError(FinalizerError),
}

impl From<ClusterError> for TerraformWorkspaceError {
    fn from(e: ClusterError) -> (r: TerraformWorkspaceError) {
        TerraformWorkspaceError::KubeError(e)
    }
}

impl vstd::std_specs::convert::FromSpecImpl<ClusterError> for TerraformWorkspaceError {
    open spec fn obeys_from_spec() -> bool {
        true
    }

    open spec fn from_spec(e: ClusterError) -> TerraformWorkspaceError {
        TerraformWorkspaceError::KubeError(e)
    }
}

impl From<FinalizerError> for TerraformWorkspaceError {
    fn from(e: FinalizerError) -> (r: TerraformWorkspaceError) {
        TerraformWorkspaceError::FinalizerError(e)
    }
}

impl vstd::std_specs::convert::FromSpecImpl<FinalizerError> for TerraformWorkspaceError {
    open spec fn obeys_from_spec() -> bool {
        true
    }

    open spec fn from_spec(e: FinalizerError) -> TerraformWorkspaceError {
        TerraformWorkspaceError::FinalizerError(e)
    }
}

impl Reconcilable for TerraformWorkspace {
    open spec fn finalizer_name_spec() -> Seq<char> {
        "finalizer.tedep.quantum-box.com"@
    }

    open spec fn apply_spec(&self, ctx: &ReconcileContext) -> Result<Action, HandlerError> {
        Ok(Action::RequeueAfter(ctx.spec_reconcile_interval()))
    }

    open spec fn cleanup_spec(&self, ctx: &ReconcileContext) -> Result<Action, HandlerError> {
        Ok(Action::AwaitChange)
    }

    open spec fn error_policy_spec(&self, error: &FinalizerError, ctx: &ReconcileContext) -> Action {
        Action::RequeueAfter(ctx.spec_retry_interval())
    }

    fn finalizer_name() -> (r: String) {
        "finalizer.tedep.quantum-box.com".to_owned()
    }

    /// Placeholder business logic: nothing to converge yet, so simply
    /// schedule the next periodic reconcile.
    fn apply(&self, ctx: &ReconcileContext) -> (r: Result<Action, HandlerError>) {
        Ok(Action::RequeueAfter(ctx.reconcile_interval()))
    }

    /// Placeholder cleanup: nothing to release, so wait for the next change
    /// (the object is about to vanish).
    fn cleanup(&self, ctx: &ReconcileContext) -> (r: Result<Action, HandlerError>) {
        Ok(Action::AwaitChange)
    }

    /// Fixed backoff: every failure is retried after the retry interval.
    fn error_policy(&self, error: &FinalizerError, ctx: &ReconcileContext) -> (r: Action) {
        Action::RequeueAfter(ctx.retry_interval())
    }
}

/// The workspace controller: binds the workspace resource type into the
/// composition framework.
pub struct TerraformWorkspaceController;

/// Metrics of the workspace controller; no counters are kept yet.
#[derive(Clone, Copy, Debug)]
pub struct TerraformWorkspaceMetrics;

impl Default for TerraformWorkspaceMetrics {
    fn default() -> (r: TerraformWorkspaceMetrics)
        ensures
            r == TerraformWorkspaceMetrics,
    {
        TerraformWorkspaceMetrics
    }
}

impl Controller for TerraformWorkspaceController {
    type Metrics = TerraformWorkspaceMetrics;

    open spec fn resource_kind_spec() -> Seq<char> {
        "TerraformWorkspace"@
    }

    fn resource_kind() -> (r: String) {
        "TerraformWorkspace".to_owned()
    }

    fn init_metrics() -> TerraformWorkspaceMetrics {
        TerraformWorkspaceMetrics::default()
    }
}

} // verus!
