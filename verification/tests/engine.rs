//! The finalizer-guarded reconcile protocol, exercised on concrete objects.

use kubox::action::Action;
use kubox::config::GlobalConfig;
use kubox::controller::{
    finalizer_event, reconcile, reconcile_invocation, settle, FinalizerEvent, ReconcileContext,
};
use kubox::errors::{ClusterError, FinalizerError, HandlerError};
use kubox::resource::{ObjectMeta, ResourceObject};
use kubox::tfws::{
    TerraformWorkspace, TerraformWorkspaceProvider, TerraformWorkspaceSpec,
    TerraformWorkspaceStatus,
};

fn workspace(
    name: &str,
    finalizers: Vec<String>,
    deletion_timestamp: Option<u64>,
) -> TerraformWorkspace {
    ResourceObject {
        metadata: ObjectMeta {
            name: name.to_owned(),
            namespace: "tedep".to_owned(),
            finalizers,
            deletion_timestamp,
        },
        spec: TerraformWorkspaceSpec {
            provider: TerraformWorkspaceProvider::default(),
        },
        status: None::<TerraformWorkspaceStatus>,
    }
}

fn context() -> ReconcileContext {
    let global = GlobalConfig::new("tedep".to_owned(), 60, 5);
    ReconcileContext::with_configs(&global, "TerraformWorkspace".to_owned())
}

#[test]
fn apply_adds_finalizer_when_absent() {
    let obj = workspace("a", vec![], None);
    let fin = "fin.example.com".to_owned();
    let out = reconcile_invocation(
        obj,
        &fin,
        Ok(()),
        Ok(Action::RequeueAfter(60)),
        Ok(()),
    );
    assert!(out.issued_add_patch);
    assert_eq!(out.invoked, Some(FinalizerEvent::Apply));
    assert!(!out.issued_remove_patch);
    assert_eq!(out.object.metadata.finalizers, vec!["fin.example.com".to_owned()]);
    assert_eq!(out.result, Ok(Action::RequeueAfter(60)));
}

#[test]
fn apply_does_not_repeat_patch() {
    let obj = workspace("a", vec!["fin.example.com".to_owned()], None);
    let fin = "fin.example.com".to_owned();
    let out = reconcile_invocation(
        obj,
        &fin,
        Ok(()),
        Ok(Action::RequeueAfter(60)),
        Ok(()),
    );
    assert!(!out.issued_add_patch);
    assert_eq!(out.invoked, Some(FinalizerEvent::Apply));
    assert_eq!(out.object.metadata.finalizers, vec!["fin.example.com".to_owned()]);
    assert_eq!(out.result, Ok(Action::RequeueAfter(60)));
}

#[test]
fn apply_twice_is_idempotent() {
    let obj = workspace("a", vec![], None);
    let fin = "fin.example.com".to_owned();
    let first = reconcile_invocation(
        obj,
        &fin,
        Ok(()),
        Ok(Action::RequeueAfter(60)),
        Ok(()),
    );
    assert!(first.issued_add_patch);
    let first_result = first.result.clone();
    let second = reconcile_invocation(
        first.object,
        &fin,
        Ok(()),
        Ok(Action::RequeueAfter(60)),
        Ok(()),
    );
    assert!(!second.issued_add_patch);
    assert!(!second.issued_remove_patch);
    assert_eq!(second.result, first_result);
    assert_eq!(second.object.metadata.finalizers, vec!["fin.example.com".to_owned()]);
}

#[test]
fn cleanup_removes_finalizer() {
    let obj = workspace(
        "a",
        vec!["other.example.com".to_owned(), "fin.example.com".to_owned()],
        Some(100),
    );
    let fin = "fin.example.com".to_owned();
    let out = reconcile_invocation(obj, &fin, Ok(()), Ok(Action::AwaitChange), Ok(()));
    assert_eq!(out.invoked, Some(FinalizerEvent::Cleanup));
    assert!(!out.issued_add_patch);
    assert!(out.issued_remove_patch);
    assert_eq!(out.object.metadata.finalizers, vec!["other.example.com".to_owned()]);
    assert_eq!(out.result, Ok(Action::AwaitChange));
}

#[test]
fn cleanup_skipped_when_finalizer_absent() {
    let obj = workspace("a", vec!["other.example.com".to_owned()], Some(100));
    let fin = "fin.example.com".to_owned();
    let out = reconcile_invocation(obj, &fin, Ok(()), Ok(Action::AwaitChange), Ok(()));
    assert_eq!(out.invoked, None);
    assert!(!out.issued_add_patch);
    assert!(!out.issued_remove_patch);
    assert_eq!(out.object.metadata.finalizers, vec!["other.example.com".to_owned()]);
    assert_eq!(out.result, Ok(Action::AwaitChange));
}

#[test]
fn add_patch_failure_aborts_apply() {
    let obj = workspace("a", vec![], None);
    let fin = "fin.example.com".to_owned();
    let out = reconcile_invocation(
        obj,
        &fin,
        Err(ClusterError::Transport),
        Ok(Action::RequeueAfter(60)),
        Ok(()),
    );
    assert!(out.issued_add_patch);
    assert_eq!(out.invoked, None);
    assert_eq!(
        out.result,
        Err(FinalizerError::AddFinalizer(ClusterError::Transport))
    );
    assert!(out.object.metadata.finalizers.is_empty());
}

#[test]
fn cleanup_handler_failure_keeps_finalizer() {
    let obj = workspace("a", vec!["fin.example.com".to_owned()], Some(100));
    let fin = "fin.example.com".to_owned();
    let out = reconcile_invocation(
        obj,
        &fin,
        Ok(()),
        Err(HandlerError::new("cleanup failed".to_owned())),
        Ok(()),
    );
    assert_eq!(out.invoked, Some(FinalizerEvent::Cleanup));
    assert!(!out.issued_remove_patch);
    assert_eq!(
        out.result,
        Err(FinalizerError::CleanupFailed(HandlerError::new(
            "cleanup failed".to_owned()
        )))
    );
    assert_eq!(out.object.metadata.finalizers, vec!["fin.example.com".to_owned()]);
}

#[test]
fn remove_patch_conflict_is_reported() {
    let obj = workspace("a", vec!["fin.example.com".to_owned()], Some(100));
    let fin = "fin.example.com".to_owned();
    let out = reconcile_invocation(
        obj,
        &fin,
        Ok(()),
        Ok(Action::AwaitChange),
        Err(ClusterError::Conflict),
    );
    assert!(out.issued_remove_patch);
    assert_eq!(
        out.result,
        Err(FinalizerError::RemoveFinalizer(ClusterError::Conflict))
    );
    assert_eq!(out.object.metadata.finalizers, vec!["fin.example.com".to_owned()]);
}

#[test]
fn classification_follows_deletion_and_finalizer_state() {
    let fin = "fin.example.com".to_owned();
    let fresh = workspace("a", vec![], None);
    assert_eq!(finalizer_event(&fresh, &fin), Some(FinalizerEvent::Apply));
    let deleting = workspace("a", vec![fin.clone()], Some(1));
    assert_eq!(finalizer_event(&deleting, &fin), Some(FinalizerEvent::Cleanup));
    let terminal = workspace("a", vec![], Some(1));
    assert_eq!(finalizer_event(&terminal, &fin), None);
}

#[test]
fn trait_reconcile_runs_workspace_handlers() {
    let ctx = context();
    let obj = workspace("a", vec![], None);
    let out = reconcile(obj, Ok(()), Ok(()), &ctx);
    assert!(out.issued_add_patch);
    assert_eq!(out.invoked, Some(FinalizerEvent::Apply));
    assert_eq!(
        out.object.metadata.finalizers,
        vec!["finalizer.tedep.quantum-box.com".to_owned()]
    );
    assert_eq!(out.result, Ok(Action::RequeueAfter(60)));
}

#[test]
fn apply_handler_failure_is_wrapped() {
    let obj = workspace("a", vec!["fin.example.com".to_owned()], None);
    let fin = "fin.example.com".to_owned();
    let out = reconcile_invocation(
        obj,
        &fin,
        Ok(()),
        Err(HandlerError::new("apply failed".to_owned())),
        Ok(()),
    );
    assert_eq!(out.invoked, Some(FinalizerEvent::Apply));
    assert_eq!(
        out.result,
        Err(FinalizerError::ApplyFailed(HandlerError::new(
            "apply failed".to_owned()
        )))
    );
}

#[test]
fn trait_reconcile_cleans_up_deleted_workspace() {
    let ctx = context();
    let obj = workspace(
        "a",
        vec!["finalizer.tedep.quantum-box.com".to_owned()],
        Some(100),
    );
    let out = reconcile(obj, Ok(()), Ok(()), &ctx);
    assert_eq!(out.invoked, Some(FinalizerEvent::Cleanup));
    assert!(out.issued_remove_patch);
    assert!(out.object.metadata.finalizers.is_empty());
    assert_eq!(out.result, Ok(Action::AwaitChange));
}

#[test]
fn error_policy_uses_retry_interval() {
    // The retry scenario: a failed handler is routed to the error policy,
    // which schedules a retry after the retry interval — distinct from the
    // handler's own requeue interval.
    let ctx = context();
    let obj = workspace("a", vec!["finalizer.tedep.quantum-box.com".to_owned()], None);
    let failure = FinalizerError::ApplyFailed(HandlerError::new("boom".to_owned()));
    let action = settle(&obj, Err(failure), &ctx);
    assert_eq!(action, Action::RequeueAfter(5));
    let ok_action = settle(&obj, Ok(Action::RequeueAfter(60)), &ctx);
    assert_eq!(ok_action, Action::RequeueAfter(60));
}

#[test]
fn end_to_end_lifecycle() {
    // An object is created with no finalizers; the first reconcile patches
    // the finalizer in and the handler asks to requeue after a minute; no
    // cleanup runs. Deleting the object sets a deletion timestamp; the next
    // reconcile invokes cleanup and removes the finalizer, making the object
    // eligible for physical deletion.
    let fin = "finalizer.x.y".to_owned();
    let obj = workspace("test-resource", vec![], None);

    let first = reconcile_invocation(
        obj,
        &fin,
        Ok(()),
        Ok(Action::RequeueAfter(60)),
        Ok(()),
    );
    assert!(first.issued_add_patch);
    assert_eq!(first.invoked, Some(FinalizerEvent::Apply));
    assert!(!first.issued_remove_patch);
    assert_eq!(first.object.metadata.finalizers, vec!["finalizer.x.y".to_owned()]);
    assert_eq!(first.result, Ok(Action::RequeueAfter(60)));

    let mut deleted = first.object;
    deleted.metadata.deletion_timestamp = Some(1700000000);

    let second = reconcile_invocation(deleted, &fin, Ok(()), Ok(Action::AwaitChange), Ok(()));
    assert_eq!(second.invoked, Some(FinalizerEvent::Cleanup));
    assert!(second.issued_remove_patch);
    assert!(second.object.metadata.finalizers.is_empty());
    assert_eq!(second.result, Ok(Action::AwaitChange));
}
