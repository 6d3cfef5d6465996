//! Preflight validation and controller composition, on concrete outcomes.

use kubox::app::App;
use kubox::config::GlobalConfig;
use kubox::controller::controller_init;
use kubox::errors::{ClusterError, PreflightError};
use kubox::preflight::{check_namespace, check_resource_type, preflight};
use kubox::service::{combine_startup, EitherOrBoth};
use kubox::tfws::TerraformWorkspaceController;

#[test]
fn preflight_passes_when_both_checks_pass() {
    assert_eq!(preflight(Ok(()), Ok(())), Ok(()));
}

#[test]
fn preflight_reports_missing_namespace() {
    assert_eq!(
        preflight(Err(ClusterError::NotFound), Ok(())),
        Err(PreflightError::NamespaceNotFound)
    );
    // The namespace failure dominates whatever the list call did.
    assert_eq!(
        preflight(Err(ClusterError::NotFound), Err(ClusterError::Transport)),
        Err(PreflightError::NamespaceNotFound)
    );
}

#[test]
fn preflight_reports_unqueryable_resource_type() {
    assert_eq!(
        preflight(Ok(()), Err(ClusterError::NotFound)),
        Err(PreflightError::ResourceTypeNotQueryable)
    );
}

#[test]
fn preflight_reports_transport_failures() {
    assert_eq!(
        preflight(Err(ClusterError::Transport), Ok(())),
        Err(PreflightError::Transport)
    );
    assert_eq!(
        preflight(Ok(()), Err(ClusterError::Transport)),
        Err(PreflightError::Transport)
    );
    assert_eq!(
        check_namespace(Err(ClusterError::Conflict)),
        Err(PreflightError::Transport)
    );
    assert_eq!(
        check_resource_type(Err(ClusterError::Conflict)),
        Err(PreflightError::Transport)
    );
}

#[test]
fn controller_init_refuses_to_start_on_preflight_failure() {
    let global = GlobalConfig::new("tedep".to_owned(), 60, 5);
    let refused = controller_init::<TerraformWorkspaceController>(
        &global,
        Err(ClusterError::NotFound),
        Ok(()),
    );
    assert!(refused.is_err());
    assert_eq!(refused.err(), Some(PreflightError::NamespaceNotFound));

    let refused_list = controller_init::<TerraformWorkspaceController>(
        &global,
        Ok(()),
        Err(ClusterError::Transport),
    );
    assert_eq!(refused_list.err(), Some(PreflightError::Transport));
}

#[test]
fn controller_init_builds_the_context() {
    let global = GlobalConfig::new("tedep".to_owned(), 60, 5);
    let started = controller_init::<TerraformWorkspaceController>(&global, Ok(()), Ok(()));
    let (ctx, _metrics) = started.ok().unwrap();
    assert_eq!(ctx.namespace_str(), "tedep");
    assert_eq!(ctx.resource_kind(), "TerraformWorkspace");
    assert_eq!(ctx.reconcile_interval(), 60);
    assert_eq!(ctx.retry_interval(), 5);
}

#[test]
fn combining_two_successes_carries_both_tasks() {
    let r: Result<(u32, u32), EitherOrBoth<i32, i32>> = combine_startup(Ok(1u32), Ok(2u32));
    assert_eq!(r, Ok((1, 2)));
}

#[test]
fn combining_identifies_the_failing_side() {
    let left_fails: Result<(u32, u32), EitherOrBoth<i32, i32>> =
        combine_startup(Err(-1), Ok(2u32));
    assert_eq!(left_fails, Err(EitherOrBoth::Left(-1)));

    let right_fails: Result<(u32, u32), EitherOrBoth<i32, i32>> =
        combine_startup(Ok(1u32), Err(-2));
    assert_eq!(right_fails, Err(EitherOrBoth::Right(-2)));
}

#[test]
fn combining_two_failures_carries_both() {
    let both: Result<(u32, u32), EitherOrBoth<i32, i32>> = combine_startup(Err(-1), Err(-2));
    assert_eq!(both, Err(EitherOrBoth::Both(-1, -2)));
}

#[test]
fn empty_app_trivially_starts() {
    let app = App::new();
    assert_eq!(app.len(), 0);
    assert_eq!(app.run(&vec![]), Ok(()));
    assert_eq!(App::default().len(), 0);
}

#[test]
fn registration_accumulates() {
    let app = App::new()
        .namespaced_service("tedep", "TerraformWorkspace".to_owned())
        .cluster_service("ClusterThing".to_owned());
    assert_eq!(app.len(), 2);
}

#[test]
fn one_failing_child_prevents_startup_and_is_named() {
    let app = App::new()
        .namespaced_service("tedep", "TerraformWorkspace".to_owned())
        .namespaced_service("other", "OtherKind".to_owned());
    let outcome = app.run(&vec![Ok(()), Err(PreflightError::NamespaceNotFound)]);
    assert_eq!(
        outcome,
        Err(vec![(1usize, PreflightError::NamespaceNotFound)])
    );
}

#[test]
fn two_failing_children_are_both_named() {
    let app = App::new()
        .namespaced_service("tedep", "TerraformWorkspace".to_owned())
        .namespaced_service("other", "OtherKind".to_owned());
    let outcome = app.run(&vec![
        Err(PreflightError::ResourceTypeNotQueryable),
        Err(PreflightError::NamespaceNotFound),
    ]);
    assert_eq!(
        outcome,
        Err(vec![
            (0usize, PreflightError::ResourceTypeNotQueryable),
            (1usize, PreflightError::NamespaceNotFound),
        ])
    );
}

#[test]
fn all_passing_children_start() {
    let app = App::new()
        .namespaced_service("tedep", "TerraformWorkspace".to_owned())
        .namespaced_service("other", "OtherKind".to_owned());
    assert_eq!(app.run(&vec![Ok(()), Ok(())]), Ok(()));
}
