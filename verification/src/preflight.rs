//! Preflight validation: the startup checks run before any watch loop.
//!
//! Before a controller starts watching, the embedding process fetches the
//! target namespace and issues a bounded list (limit one) of the resource
//! type. The outcomes of those two cluster calls enter here as plain values;
//! this module decides, deterministically, whether the watch loop may start
//! and which check failed if not.

use vstd::prelude::*;

use crate::errors::{ClusterError, PreflightError};

verus! {

/// How a namespace-fetch outcome surfaces at preflight: a missing namespace
/// is its own failure, anything else that went wrong is a transport failure.
pub open spec fn spec_namespace_check(r: Result<(), ClusterError>) -> Result<(), PreflightError> {
    match r {
        Ok(u) => Ok(()),
        Err(ClusterError::NotFound) => Err(PreflightError::NamespaceNotFound),
        Err(c) => Err(PreflightError::Transport),
    }
}

/// How a bounded-list outcome surfaces at preflight: a missing resource type
/// is its own failure, anything else that went wrong is a transport failure.
pub open spec fn spec_resource_check(r: Result<(), ClusterError>) -> Result<(), PreflightError> {
    match r {
        Ok(u) => Ok(()),
        Err(ClusterError::NotFound) => Err(PreflightError::ResourceTypeNotQueryable),
        Err(c) => Err(PreflightError::Transport),
    }
}

/// The whole preflight decision: the namespace check is consulted first and
/// its failure dominates; only with the namespace present does the resource
/// type check decide.
pub open spec fn spec_preflight(
    namespace_fetch: Result<(), ClusterError>,
    resource_list: Result<(), ClusterError>,
) -> Result<(), PreflightError> {
    if namespace_fetch is Err {
        spec_namespace_check(namespace_fetch)
    } else {
        spec_resource_check(resource_list)
    }
}

/// Decide whether the namespace exists, from the outcome of fetching it.
pub fn check_namespace(r: Result<(), ClusterError>) -> (out: Result<(), PreflightError>)
    ensures
        out == spec_namespace_check(r),
{
    match r {
        Ok(u) => Ok(()),
        Err(ClusterError::NotFound) => Err(PreflightError::NamespaceNotFound),
        Err(c) => Err(PreflightError::Transport),
    }
}

/// Decide whether the resource type is queryable, from the outcome of a
/// bounded list call.
pub fn check_resource_type(r: Result<(), ClusterError>) -> (out: Result<(), PreflightError>)
    ensures
        out == spec_resource_check(r),
{
    match r {
        Ok(u) => Ok(()),
        Err(ClusterError::NotFound) => Err(PreflightError::ResourceTypeNotQueryable),
        Err(c) => Err(PreflightError::Transport),
    }
}

/// The whole preflight decision for one controller.
pub fn preflight(
    namespace_fetch: Result<(), ClusterError>,
    resource_list: Result<(), ClusterError>,
) -> (out: Result<(), PreflightError>)
    ensures
        out == spec_preflight(namespace_fetch, resource_list),
{
    match check_namespace(namespace_fetch) {
        Err(e) => Err(e),
        Ok(u) => check_resource_type(resource_list),
    }
}

/// Law: preflight fails deterministically — and the watch loop must not
/// start — exactly when the namespace fetch or the resource list call did
/// not succeed, and the reported failure names the check that failed.
pub proof fn lemma_preflight_gates_watch(
    namespace_fetch: Result<(), ClusterError>,
    resource_list: Result<(), ClusterError>,
)
    ensures
        spec_preflight(namespace_fetch, resource_list) is Ok <==> (namespace_fetch is Ok
            && resource_list is Ok),
        namespace_fetch == Err::<(), ClusterError>(ClusterError::NotFound) ==> spec_preflight(
            namespace_fetch,
            resource_list,
        ) == Err::<(), PreflightError>(PreflightError::NamespaceNotFound),
        namespace_fetch is Ok && resource_list == Err::<(), ClusterError>(ClusterError::NotFound)
            ==> spec_preflight(namespace_fetch, resource_list) == Err::<(), PreflightError>(
            PreflightError::ResourceTypeNotQueryable,
        ),
{
}

} // verus!
