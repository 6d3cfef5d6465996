//! The data model and configuration surface.

use kubox::action::Action;
use kubox::config::GlobalConfig;
use kubox::errors::{ClusterError, FinalizerError, HandlerError};
use kubox::metrics::{GlobalMetrics, WorkspaceMetrics};
use kubox::resource::{finalizers_with, finalizers_without, has_finalizer, ObjectMeta};
use kubox::tfws::{
    TerraformWorkspaceError, TerraformWorkspaceProvider, TerraformWorkspaceProviderName,
};
use kubox::workspace::WorkspaceError;

fn meta(finalizers: Vec<String>) -> ObjectMeta {
    ObjectMeta {
        name: "obj".to_owned(),
        namespace: "ns".to_owned(),
        finalizers,
        deletion_timestamp: None,
    }
}

#[test]
fn global_config_exposes_its_fields() {
    let cfg = GlobalConfig::new("tedep".to_owned(), 120, 7);
    assert_eq!(cfg.namespace_str(), "tedep");
    assert_eq!(cfg.reconcile_interval(), 120);
    assert_eq!(cfg.retry_interval(), 7);
}

#[test]
fn finalizer_list_operations() {
    let m = meta(vec!["a".to_owned(), "b".to_owned()]);
    assert!(has_finalizer(&m, &"a".to_owned()));
    assert!(!has_finalizer(&m, &"c".to_owned()));

    let grown = finalizers_with(&m, &"c".to_owned());
    assert_eq!(
        grown,
        vec!["a".to_owned(), "b".to_owned(), "c".to_owned()]
    );

    let shrunk = finalizers_without(&m, &"a".to_owned());
    assert_eq!(shrunk, vec!["b".to_owned()]);

    let unchanged = finalizers_without(&m, &"missing".to_owned());
    assert_eq!(unchanged, vec!["a".to_owned(), "b".to_owned()]);
}

#[test]
fn default_provider_is_terraform_cloud() {
    assert_eq!(
        TerraformWorkspaceProviderName::default(),
        TerraformWorkspaceProviderName::TerraformCloud
    );
    assert_eq!(
        TerraformWorkspaceProvider::default().name,
        TerraformWorkspaceProviderName::TerraformCloud
    );
}

#[test]
fn errors_convert_from_their_sources() {
    let from_kube: TerraformWorkspaceError = ClusterError::Conflict.into();
    assert_eq!(from_kube, TerraformWorkspaceError::KubeError(ClusterError::Conflict));

    let finalizer_failure =
        FinalizerError::ApplyFailed(HandlerError::new("apply failed".to_owned()));
    let wrapped: TerraformWorkspaceError = finalizer_failure.clone().into();
    assert_eq!(wrapped, TerraformWorkspaceError::FinalizerError(finalizer_failure));

    let ws: WorkspaceError = ClusterError::Transport.into();
    assert_eq!(ws, WorkspaceError::KubeError(ClusterError::Transport));

    let ws_finalizer =
        FinalizerError::CleanupFailed(HandlerError::new("cleanup failed".to_owned()));
    let ws_wrapped: WorkspaceError = ws_finalizer.clone().into();
    assert_eq!(ws_wrapped, WorkspaceError::FinalizerError(ws_finalizer));
}

#[test]
fn actions_compare_by_value() {
    assert_eq!(Action::RequeueAfter(60), Action::RequeueAfter(60));
    assert_ne!(Action::RequeueAfter(60), Action::RequeueAfter(5));
    assert_ne!(Action::RequeueAfter(60), Action::AwaitChange);
}

#[test]
fn metrics_bundle_builds() {
    let _ = GlobalMetrics::new(WorkspaceMetrics::default());
}
