//! Pairwise composition of services.
//!
//! A service is anything that, given a cluster handle, either fails its
//! startup checks or hands back a long-running watch task. Composing two
//! services runs both startups concurrently and aggregates their outcomes:
//! the combination starts only if both children start, and a failure names
//! exactly the children that failed. The concurrent running itself is the
//! embedding process's business; the aggregation decision is here.

use vstd::prelude::*;

use crate::resource::ResourceObject;

verus! {

/// Marker for resource types the engine can watch. Every object of this
/// crate's resource model qualifies; the embedding process is responsible
/// for wiring each to a queryable cluster resource.
pub trait KubeResource {

}

impl<Sp, St> KubeResource for ResourceObject<Sp, St> {

}

/// Marker for the type-metadata a resource kind needs to be addressed in
/// the cluster. Resource kinds defined statically need none, so the unit
/// type qualifies.
pub trait KubeReosurceDynamicType {

}

impl KubeReosurceDynamicType for () {

}

/// Tracks, in the type, how a composed service is scoped: a namespaced leaf
/// carries its namespace, the empty service has no scope, and a pair
/// composes the scopes of its children.
pub trait Scope {

}

impl Scope for String {

}

impl Scope for () {

}

impl<S: Scope, S2: Scope> Scope for (S, S2) {

}

/// Which side(s) of a composed pair failed: the newly added child, the
/// previously accumulated one, or both.
#[derive(Debug, PartialEq, Eq, Clone, Copy)]
pub enum EitherOrBoth<A, B> {
    Left(A),
    Right(B),
    Both(A, B),
}

/// Aggregate the startup outcomes of a composed pair. The combination
/// starts only when both children started, carrying both running tasks; a
/// failure carries exactly the failing side's error, or both.
pub fn combine_startup<T2, E2, T, E>(left: Result<T2, E2>, right: Result<T, E>) -> (r: Result<
    (T2, T),
    EitherOrBoth<E2, E>,
>)
    ensures
        left is Ok && right is Ok ==> r == Ok::<(T2, T), EitherOrBoth<E2, E>>(
            (left->Ok_0, right->Ok_0),
        ),
        left is Err && right is Err ==> r == Err::<(T2, T), EitherOrBoth<E2, E>>(
            EitherOrBoth::Both(left->Err_0, right->Err_0),
        ),
        left is Err && right is Ok ==> r == Err::<(T2, T), EitherOrBoth<E2, E>>(
            EitherOrBoth::Left(left->Err_0),
        ),
        left is Ok && right is Err ==> r == Err::<(T2, T), EitherOrBoth<E2, E>>(
            EitherOrBoth::Right(right->Err_0),
        ),
{
    match (left, right) {
        (Err(e2), Err(e)) => Err(EitherOrBoth::Both(e2, e)),
        (Err(e2), Ok(t)) => Err(EitherOrBoth::Left(e2)),
        (Ok(t2), Err(e)) => Err(EitherOrBoth::Right(e)),
        (Ok(t2), Ok(t)) => Ok((t2, t)),
    }
}

/// Law: a combined startup fails exactly when some child fails, the failure
/// identifies exactly the failing children, and a successful combination
/// carries both children's running tasks — the embedding process joins
/// them, so the combination resolves only when both loops end.
pub proof fn lemma_combination_attribution<T2, E2, T, E>(
    left: Result<T2, E2>,
    right: Result<T, E>,
    r: Result<(T2, T), EitherOrBoth<E2, E>>,
)
    requires
        left is Ok && right is Ok ==> r == Ok::<(T2, T), EitherOrBoth<E2, E>>(
            (left->Ok_0, right->Ok_0),
        ),
        left is Err && right is Err ==> r == Err::<(T2, T), EitherOrBoth<E2, E>>(
            EitherOrBoth::Both(left->Err_0, right->Err_0),
        ),
        left is Err && right is Ok ==> r == Err::<(T2, T), EitherOrBoth<E2, E>>(
            EitherOrBoth::Left(left->Err_0),
        ),
        left is Ok && right is Err ==> r == Err::<(T2, T), EitherOrBoth<E2, E>>(
            EitherOrBoth::Right(right->Err_0),
        ),
    ensures
        r is Ok <==> (left is Ok && right is Ok),
        r is Ok ==> r->Ok_0 == (left->Ok_0, right->Ok_0),
        (left is Err && right is Ok) ==> r->Err_0 == EitherOrBoth::Left::<E2, E>(left->Err_0),
        (left is Ok && right is Err) ==> r->Err_0 == EitherOrBoth::Right::<E2, E>(right->Err_0),
        (left is Err && right is Err) ==> r->Err_0 == EitherOrBoth::Both::<E2, E>(
            left->Err_0,
            right->Err_0,
        ),
{
}

} // verus!
