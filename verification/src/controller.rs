//! The reconciliation engine: the finalizer-guarded reconcile protocol.
//!
//! For every watch notification the engine classifies the object into a
//! [`FinalizerEvent`], ensures the controller's finalizer is present before
//! apply and removes it after a successful cleanup, and routes handler
//! failures to the error policy. The cluster calls themselves (the two
//! finalizer patches, the handlers' own API traffic) are performed by the
//! embedding process; their outcomes enter here as plain values, and the
//! protocol is specified and proved for every outcome.

use vstd::prelude::*;

use crate::action::Action;
use crate::config::GlobalConfig;
use crate::errors::{ClusterError, FinalizerError, HandlerError};
use crate::resource::{
    has_finalizer, finalizers_with, finalizers_without, MetaModel, ObjectMeta, ResourceObject,
};

verus! {

/// The state machine's input alphabet, derived per watch notification from
/// the object's deletion-timestamp and finalizer-list state.
#[derive(Clone, Copy, Debug, PartialEq, Eq, Structural)]
pub enum FinalizerEvent {
    /// The object is not being deleted: drive it toward its desired state.
    Apply,
    /// The object is being deleted and this controller's finalizer is still
    /// present: release its resources.
    Cleanup,
}

/// Per-controller bundle, immutable after construction and shared by every
/// reconcile invocation for that controller: the target namespace, the
/// resource kind being watched, and the two scheduling intervals in seconds.
pub struct ReconcileContext {
    namespace_str: String,
    resource_kind: String,
    reconcile_interval: u64,
    retry_interval: u64,
}

impl ReconcileContext {
    pub closed spec fn spec_namespace_str(self) -> Seq<char> {
        self.namespace_str@
    }

    pub closed spec fn spec_resource_kind(self) -> Seq<char> {
        self.resource_kind@
    }

    pub closed spec fn spec_reconcile_interval(self) -> u64 {
        self.reconcile_interval
    }

    pub closed spec fn spec_retry_interval(self) -> u64 {
        self.retry_interval
    }

    /// Build the context once at controller start from the global
    /// configuration and the kind of resource this controller watches.
    pub fn with_configs(global_config: &GlobalConfig, resource_kind: String) -> (r:
        ReconcileContext)
        ensures
            r.spec_namespace_str() == global_config.spec_namespace_str(),
            r.spec_resource_kind() == resource_kind@,
            r.spec_reconcile_interval() == global_config.spec_reconcile_interval(),
            r.spec_retry_interval() == global_config.spec_retry_interval(),
    {
        ReconcileContext {
            namespace_str: global_config.namespace_str().to_owned(),
            resource_kind,
            reconcile_interval: global_config.reconcile_interval(),
            retry_interval: global_config.retry_interval(),
        }
    }

    pub fn namespace_str(&self) -> (r: &str)
        ensures
            r@ == self.spec_namespace_str(),
    {
        self.namespace_str.as_str()
    }

    pub fn resource_kind(&self) -> (r: &str)
        ensures
            r@ == self.spec_resource_kind(),
    {
        self.resource_kind.as_str()
    }

    pub fn reconcile_interval(&self) -> (r: u64)
        ensures
            r == self.spec_reconcile_interval(),
    {
        self.reconcile_interval
    }

    pub fn retry_interval(&self) -> (r: u64)
        ensures
            r == self.spec_retry_interval(),
    {
        self.retry_interval
    }
}

/// What a resource type must supply to participate in reconciliation: a
/// stable finalizer name unique to its controller, the apply and cleanup
/// handlers, and an error policy. The engine owns the finalizer protocol;
/// implementers supply only business logic.
pub trait Reconcilable: Sized {
    /// The finalizer identifier this controller tags objects with.
    spec fn finalizer_name_spec() -> Seq<char>;

    /// What apply decides for this object under this context.
    spec fn apply_spec(&self, ctx: &ReconcileContext) -> Result<Action, HandlerError>;

    /// What cleanup decides for this object under this context.
    spec fn cleanup_spec(&self, ctx: &ReconcileContext) -> Result<Action, HandlerError>;

    /// What the error policy schedules after the given failure.
    spec fn error_policy_spec(&self, error: &FinalizerError, ctx: &ReconcileContext) -> Action;

    fn finalizer_name() -> (r: String)
        ensures
            r@ == Self::finalizer_name_spec(),
    ;

    /// Drive the object toward its desired state.
    fn apply(&self, ctx: &ReconcileContext) -> (r: Result<Action, HandlerError>)
        ensures
            r == self.apply_spec(ctx),
    ;

    /// Release whatever the object holds before it is physically deleted.
    fn cleanup(&self, ctx: &ReconcileContext) -> (r: Result<Action, HandlerError>)
        ensures
            r == self.cleanup_spec(ctx),
    ;

    /// Decide what to schedule after a failed reconcile.
    fn error_policy(&self, error: &FinalizerError, ctx: &ReconcileContext) -> (r: Action)
        ensures
            r == self.error_policy_spec(error, ctx),
    ;
}

/// Classification of one watch notification: apply, cleanup, or — when the
/// object is being deleted and the finalizer is already gone — nothing (the
/// idempotent terminal state).
pub open spec fn spec_finalizer_event(m: MetaModel, fin: Seq<char>) -> Option<FinalizerEvent> {
    if !m.marked_for_deletion() {
        Some(FinalizerEvent::Apply)
    } else if m.has_finalizer(fin) {
        Some(FinalizerEvent::Cleanup)
    } else {
        None
    }
}

/// An apply handler failure wrapped as a protocol failure.
pub open spec fn wrap_apply(h: Result<Action, HandlerError>) -> Result<Action, FinalizerError> {
    match h {
        Ok(a) => Ok(a),
        Err(e) => Err(FinalizerError::ApplyFailed(e)),
    }
}

/// Everything one reconcile invocation did, at the model level.
pub struct EffectsModel {
    /// The object's metadata as the protocol left it.
    pub meta: MetaModel,
    /// Whether a finalizer-add patch was issued.
    pub issued_add_patch: bool,
    /// Which handler was invoked, if any.
    pub invoked: Option<FinalizerEvent>,
    /// Whether a finalizer-remove patch was issued.
    pub issued_remove_patch: bool,
    /// The invocation's result, before the error policy is consulted.
    pub result: Result<Action, FinalizerError>,
}

/// The full finalizer-guarded reconcile protocol as a function of the
/// observed metadata and the outcomes of the outside calls it makes: the
/// finalizer-add patch, the invoked handler, and the finalizer-remove patch.
/// An outcome argument is consulted only when the protocol issues that call.
pub open spec fn spec_reconcile(
    m: MetaModel,
    fin: Seq<char>,
    add_patch: Result<(), ClusterError>,
    handler: Result<Action, HandlerError>,
    remove_patch: Result<(), ClusterError>,
) -> EffectsModel {
    match spec_finalizer_event(m, fin) {
        Some(FinalizerEvent::Apply) => {
            if m.has_finalizer(fin) {
                EffectsModel {
                    meta: m,
                    issued_add_patch: false,
                    invoked: Some(FinalizerEvent::Apply),
                    issued_remove_patch: false,
                    result: wrap_apply(handler),
                }
            } else {
                match add_patch {
                    Ok(u) => EffectsModel {
                        meta: m.with_finalizer(fin),
                        issued_add_patch: true,
                        invoked: Some(FinalizerEvent::Apply),
                        issued_remove_patch: false,
                        result: wrap_apply(handler),
                    },
                    Err(c) => EffectsModel {
                        meta: m,
                        issued_add_patch: true,
                        invoked: None,
                        issued_remove_patch: false,
                        result: Err(FinalizerError::AddFinalizer(c)),
                    },
                }
            }
        },
        Some(FinalizerEvent::Cleanup) => {
            match handler {
                Err(e) => EffectsModel {
                    meta: m,
                    issued_add_patch: false,
                    invoked: Some(FinalizerEvent::Cleanup),
                    issued_remove_patch: false,
                    result: Err(FinalizerError::CleanupFailed(e)),
                },
                Ok(a) => {
                    match remove_patch {
                        Ok(u) => EffectsModel {
                            meta: m.without_finalizer(fin),
                            issued_add_patch: false,
                            invoked: Some(FinalizerEvent::Cleanup),
                            issued_remove_patch: true,
                            result: Ok(a),
                        },
                        Err(c) => EffectsModel {
                            meta: m,
                            issued_add_patch: false,
                            invoked: Some(FinalizerEvent::Cleanup),
                            issued_remove_patch: true,
                            result: Err(FinalizerError::RemoveFinalizer(c)),
                        },
                    }
                },
            }
        },
        None => EffectsModel {
            meta: m,
            issued_add_patch: false,
            invoked: None,
            issued_remove_patch: false,
            result: Ok(Action::AwaitChange),
        },
    }
}

/// Everything one reconcile invocation did: the object as the protocol left
/// it, the patches issued, the handler invoked, and the result.
pub struct ReconcileOutcome<Sp, St> {
    pub object: ResourceObject<Sp, St>,
    pub issued_add_patch: bool,
    pub invoked: Option<FinalizerEvent>,
    pub issued_remove_patch: bool,
    pub result: Result<Action, FinalizerError>,
}

/// Classify one watch notification for the given finalizer.
pub fn finalizer_event<Sp, St>(obj: &ResourceObject<Sp, St>, fin: &String) -> (r: Option<
    FinalizerEvent,
>)
    ensures
        r == spec_finalizer_event(obj.metadata@, fin@),
{
    if obj.metadata.deletion_timestamp.is_none() {
        Some(FinalizerEvent::Apply)
    } else if has_finalizer(&obj.metadata, fin) {
        Some(FinalizerEvent::Cleanup)
    } else {
        None
    }
}

/// One reconcile invocation of the protocol, with the outcomes of the
/// outside calls supplied as values: the finalizer-add patch, the handler
/// that the classification selects, and the finalizer-remove patch. The
/// returned effects match [`spec_reconcile`] exactly, the spec and status
/// payloads are untouched, and the metadata invariant is preserved.
pub fn reconcile_invocation<Sp, St>(
    obj: ResourceObject<Sp, St>,
    fin: &String,
    add_patch: Result<(), ClusterError>,
    handler: Result<Action, HandlerError>,
    remove_patch: Result<(), ClusterError>,
) -> (r: ReconcileOutcome<Sp, St>)
    requires
        obj.wf(),
    ensures
        ({
            let e = spec_reconcile(obj.metadata@, fin@, add_patch, handler, remove_patch);
            &&& r.object.metadata@ == e.meta
            &&& r.issued_add_patch == e.issued_add_patch
            &&& r.invoked == e.invoked
            &&& r.issued_remove_patch == e.issued_remove_patch
            &&& r.result == e.result
            &&& r.object.spec == obj.spec
            &&& r.object.status == obj.status
            &&& r.object.wf()
        }),
{
    let ghost m = obj.metadata@;
    let ResourceObject { metadata, spec, status } = obj;
    if metadata.deletion_timestamp.is_none() {
        if has_finalizer(&metadata, fin) {
            proof {
                crate::resource::lemma_with_finalizer_props(m, fin@);
            }
            ReconcileOutcome {
                object: ResourceObject { metadata, spec, status },
                issued_add_patch: false,
                invoked: Some(FinalizerEvent::Apply),
                issued_remove_patch: false,
                result: match handler {
                    Ok(a) => Ok(a),
                    Err(e) => Err(FinalizerError::ApplyFailed(e)),
                },
            }
        } else {
            match add_patch {
                Ok(u) => {
                    let new_finalizers = finalizers_with(&metadata, fin);
                    let patched = ObjectMeta { finalizers: new_finalizers, ..metadata };
                    proof {
                        crate::resource::lemma_with_finalizer_props(m, fin@);
                        assert(patched@ == m.with_finalizer(fin@));
                    }
                    ReconcileOutcome {
                        object: ResourceObject { metadata: patched, spec, status },
                        issued_add_patch: true,
                        invoked: Some(FinalizerEvent::Apply),
                        issued_remove_patch: false,
                        result: match handler {
                            Ok(a) => Ok(a),
                            Err(e) => Err(FinalizerError::ApplyFailed(e)),
                        },
                    }
                },
                Err(c) => ReconcileOutcome {
                    object: ResourceObject { metadata, spec, status },
                    issued_add_patch: true,
                    invoked: None,
                    issued_remove_patch: false,
                    result: Err(FinalizerError::AddFinalizer(c)),
                },
            }
        }
    } else {
        if has_finalizer(&metadata, fin) {
            match handler {
                Err(e) => ReconcileOutcome {
                    object: ResourceObject { metadata, spec, status },
                    issued_add_patch: false,
                    invoked: Some(FinalizerEvent::Cleanup),
                    issued_remove_patch: false,
                    result: Err(FinalizerError::CleanupFailed(e)),
                },
                Ok(a) => {
                    match remove_patch {
                        Ok(u) => {
                            let new_finalizers = finalizers_without(&metadata, fin);
                            let cleared = ObjectMeta { finalizers: new_finalizers, ..metadata };
                            proof {
                                crate::resource::lemma_without_finalizer_props(m, fin@);
                                assert(cleared@ == m.without_finalizer(fin@));
                            }
                            ReconcileOutcome {
                                object: ResourceObject { metadata: cleared, spec, status },
                                issued_add_patch: false,
                                invoked: Some(FinalizerEvent::Cleanup),
                                issued_remove_patch: true,
                                result: Ok(a),
                            }
                        },
                        Err(c) => ReconcileOutcome {
                            object: ResourceObject { metadata, spec, status },
                            issued_add_patch: false,
                            invoked: Some(FinalizerEvent::Cleanup),
                            issued_remove_patch: true,
                            result: Err(FinalizerError::RemoveFinalizer(c)),
                        },
                    }
                },
            }
        } else {
            ReconcileOutcome {
                object: ResourceObject { metadata, spec, status },
                issued_add_patch: false,
                invoked: None,
                issued_remove_patch: false,
                result: Ok(Action::AwaitChange),
            }
        }
    }
}

/// What [`reconcile`] promises: the protocol's effects, with the handler
/// outcomes fixed to what the resource's own handlers decide. Apply sees the
/// object with the finalizer already ensured (the returned object); cleanup
/// sees the object as observed.
pub open spec fn reconcile_post<Sp, St>(
    obj: ResourceObject<Sp, St>,
    add_patch: Result<(), ClusterError>,
    remove_patch: Result<(), ClusterError>,
    ctx: &ReconcileContext,
    r: ReconcileOutcome<Sp, St>,
) -> bool where ResourceObject<Sp, St>: Reconcilable {
    let fin = <ResourceObject<Sp, St> as Reconcilable>::finalizer_name_spec();
    let m = obj.metadata@;
    &&& r.object.spec == obj.spec
    &&& r.object.status == obj.status
    &&& r.object.wf()
    &&& if !m.marked_for_deletion() {
        &&& r.issued_add_patch == !m.has_finalizer(fin)
        &&& r.issued_remove_patch == false
        &&& if m.has_finalizer(fin) {
            &&& r.object == obj
            &&& r.invoked == Some(FinalizerEvent::Apply)
            &&& r.result == wrap_apply(r.object.apply_spec(ctx))
        } else if add_patch is Ok {
            &&& r.object.metadata@ == m.with_finalizer(fin)
            &&& r.invoked == Some(FinalizerEvent::Apply)
            &&& r.result == wrap_apply(r.object.apply_spec(ctx))
        } else {
            &&& r.object == obj
            &&& r.invoked is None
            &&& r.result == Err::<Action, FinalizerError>(FinalizerError::AddFinalizer(add_patch->Err_0))
        }
    } else if m.has_finalizer(fin) {
        &&& r.issued_add_patch == false
        &&& r.invoked == Some(FinalizerEvent::Cleanup)
        &&& match obj.cleanup_spec(ctx) {
            Err(e) => {
                &&& r.object == obj
                &&& r.issued_remove_patch == false
                &&& r.result == Err::<Action, FinalizerError>(FinalizerError::CleanupFailed(e))
            },
            Ok(a) => {
                &&& r.issued_remove_patch == true
                &&& if remove_patch is Ok {
                    &&& r.object.metadata@ == m.without_finalizer(fin)
                    &&& r.result == Ok::<Action, FinalizerError>(a)
                } else {
                    &&& r.object == obj
                    &&& r.result == Err::<Action, FinalizerError>(FinalizerError::RemoveFinalizer(remove_patch->Err_0))
                }
            },
        }
    } else {
        &&& r.object == obj
        &&& r.issued_add_patch == false
        &&& r.invoked is None
        &&& r.issued_remove_patch == false
        &&& r.result == Ok::<Action, FinalizerError>(Action::AwaitChange)
    }
}

/// One reconcile invocation for a resource type that supplies its own
/// handlers: classify the object, ensure the finalizer before apply, remove
/// it after a successful cleanup, and wrap handler failures. The outcomes of
/// the two finalizer patches — cluster calls made by the embedding process —
/// are supplied as values; each is consulted only when the protocol issues
/// that patch.
pub fn reconcile<Sp, St>(
    obj: ResourceObject<Sp, St>,
    add_patch: Result<(), ClusterError>,
    remove_patch: Result<(), ClusterError>,
    ctx: &ReconcileContext,
) -> (r: ReconcileOutcome<Sp, St>) where ResourceObject<Sp, St>: Reconcilable
    requires
        obj.wf(),
    ensures
        reconcile_post(obj, add_patch, remove_patch, ctx, r),
{
    let ghost m = obj.metadata@;
    let fin = <ResourceObject<Sp, St> as Reconcilable>::finalizer_name();
    let ResourceObject { metadata, spec, status } = obj;
    if metadata.deletion_timestamp.is_none() {
        let had = has_finalizer(&metadata, &fin);
        if !had {
            match add_patch {
                Err(c) => {
                    return ReconcileOutcome {
                        object: ResourceObject { metadata, spec, status },
                        issued_add_patch: true,
                        invoked: None,
                        issued_remove_patch: false,
                        result: Err(FinalizerError::AddFinalizer(c)),
                    };
                },
                Ok(u) => (),
            }
        }
        let ensured = if had {
            metadata
        } else {
            let new_finalizers = finalizers_with(&metadata, &fin);
            ObjectMeta { finalizers: new_finalizers, ..metadata }
        };
        proof {
            crate::resource::lemma_with_finalizer_props(m, fin@);
            assert(ensured@ == m.with_finalizer(fin@));
        }
        let object = ResourceObject { metadata: ensured, spec, status };
        let handled = object.apply(ctx);
        ReconcileOutcome {
            object,
            issued_add_patch: !had,
            invoked: Some(FinalizerEvent::Apply),
            issued_remove_patch: false,
            result: match handled {
                Ok(a) => Ok(a),
                Err(e) => Err(FinalizerError::ApplyFailed(e)),
            },
        }
    } else {
        if has_finalizer(&metadata, &fin) {
            let object = ResourceObject { metadata, spec, status };
            let handled = object.cleanup(ctx);
            match handled {
                Err(e) => ReconcileOutcome {
                    object,
                    issued_add_patch: false,
                    invoked: Some(FinalizerEvent::Cleanup),
                    issued_remove_patch: false,
                    result: Err(FinalizerError::CleanupFailed(e)),
                },
                Ok(a) => {
                    match remove_patch {
                        Ok(u) => {
                            let new_finalizers = finalizers_without(&object.metadata, &fin);
                            let cleared = ObjectMeta {
                                finalizers: new_finalizers,
                                ..object.metadata
                            };
                            proof {
                                crate::resource::lemma_without_finalizer_props(m, fin@);
                                assert(cleared@ == m.without_finalizer(fin@));
                            }
                            ReconcileOutcome {
                                object: ResourceObject {
                                    metadata: cleared,
                                    spec: object.spec,
                                    status: object.status,
                                },
                                issued_add_patch: false,
                                invoked: Some(FinalizerEvent::Cleanup),
                                issued_remove_patch: true,
                                result: Ok(a),
                            }
                        },
                        Err(c) => ReconcileOutcome {
                            object,
                            issued_add_patch: false,
                            invoked: Some(FinalizerEvent::Cleanup),
                            issued_remove_patch: true,
                            result: Err(FinalizerError::RemoveFinalizer(c)),
                        },
                    }
                },
            }
        } else {
            ReconcileOutcome {
                object: ResourceObject { metadata, spec, status },
                issued_add_patch: false,
                invoked: None,
                issued_remove_patch: false,
                result: Ok(Action::AwaitChange),
            }
        }
    }
}

/// Law: an object without a deletion timestamp always takes the apply path.
/// The finalizer-add patch is issued if and only if the finalizer was
/// previously absent; an object that already carries it is left untouched
/// and no patch is repeated. Whenever the handler runs (finalizer already
/// present, or the add patch succeeded), the invocation is an `Apply` on an
/// object that carries the finalizer, and no remove patch is ever issued.
pub proof fn lemma_apply_path(
    m: MetaModel,
    fin: Seq<char>,
    add_patch: Result<(), ClusterError>,
    handler: Result<Action, HandlerError>,
    remove_patch: Result<(), ClusterError>,
)
    requires
        m.wf(),
        !m.marked_for_deletion(),
    ensures
        ({
            let e = spec_reconcile(m, fin, add_patch, handler, remove_patch);
            &&& e.issued_add_patch <==> !m.has_finalizer(fin)
            &&& m.has_finalizer(fin) ==> e.meta == m && e.invoked == Some(FinalizerEvent::Apply)
            &&& (m.has_finalizer(fin) || add_patch is Ok) ==> e.invoked == Some(
                FinalizerEvent::Apply,
            ) && e.meta.has_finalizer(fin) && e.result == wrap_apply(handler)
            &&& e.issued_remove_patch == false
            &&& e.meta.wf()
        }),
{
    crate::resource::lemma_with_finalizer_props(m, fin);
}

/// Law: an object with a deletion timestamp and the finalizer present takes
/// the cleanup path: the cleanup handler is invoked, and on its success the
/// finalizer-remove patch is issued; once that patch succeeds the finalizer
/// is gone. If the finalizer is already absent, no cleanup is invoked and
/// nothing is patched — the idempotent terminal state.
pub proof fn lemma_cleanup_path(
    m: MetaModel,
    fin: Seq<char>,
    add_patch: Result<(), ClusterError>,
    handler: Result<Action, HandlerError>,
    remove_patch: Result<(), ClusterError>,
)
    requires
        m.wf(),
        m.marked_for_deletion(),
    ensures
        ({
            let e = spec_reconcile(m, fin, add_patch, handler, remove_patch);
            &&& e.issued_add_patch == false
            &&& m.has_finalizer(fin) ==> e.invoked == Some(FinalizerEvent::Cleanup)
            &&& m.has_finalizer(fin) ==> (e.issued_remove_patch <==> handler is Ok)
            &&& (m.has_finalizer(fin) && handler is Ok && remove_patch is Ok) ==> (
            !e.meta.has_finalizer(fin) && e.result == Ok::<Action, FinalizerError>(
                handler->Ok_0,
            ))
            &&& !m.has_finalizer(fin) ==> e.invoked is None && e.issued_remove_patch == false
                && e.meta == m && e.result == Ok::<Action, FinalizerError>(Action::AwaitChange)
            &&& e.meta.wf()
        }),
{
    crate::resource::lemma_without_finalizer_props(m, fin);
}

/// Law: reconciling is idempotent on the apply path. A second invocation on
/// the object the first one left behind — its state unchanged in between —
/// issues no further patch, leaves the object as it is, and, given the same
/// handler outcome, produces the same result.
pub proof fn lemma_apply_idempotent(
    m: MetaModel,
    fin: Seq<char>,
    add_patch: Result<(), ClusterError>,
    handler: Result<Action, HandlerError>,
    remove_patch: Result<(), ClusterError>,
    add_patch2: Result<(), ClusterError>,
    remove_patch2: Result<(), ClusterError>,
)
    requires
        m.wf(),
        !m.marked_for_deletion(),
        add_patch is Ok,
    ensures
        ({
            let first = spec_reconcile(m, fin, add_patch, handler, remove_patch);
            let second = spec_reconcile(first.meta, fin, add_patch2, handler, remove_patch2);
            &&& second.issued_add_patch == false
            &&& second.issued_remove_patch == false
            &&& second.meta == first.meta
            &&& second.invoked == first.invoked
            &&& second.result == first.result
        }),
{
    crate::resource::lemma_with_finalizer_props(m, fin);
    let first = spec_reconcile(m, fin, add_patch, handler, remove_patch);
    crate::resource::lemma_with_finalizer_props(first.meta, fin);
}

/// Law: [`reconcile`] is idempotent on the apply path. A second invocation
/// on the object the first one left behind — its state unchanged in between
/// — issues no patch, leaves the object as it is, and produces the same
/// result: the handlers run on the same object, so the same action comes
/// back without any hypothesis on what they decide.
pub proof fn lemma_reconcile_idempotent<Sp, St>(
    obj: ResourceObject<Sp, St>,
    add_patch: Result<(), ClusterError>,
    remove_patch: Result<(), ClusterError>,
    add_patch2: Result<(), ClusterError>,
    remove_patch2: Result<(), ClusterError>,
    ctx: &ReconcileContext,
    r1: ReconcileOutcome<Sp, St>,
    r2: ReconcileOutcome<Sp, St>,
) where ResourceObject<Sp, St>: Reconcilable
    requires
        obj.wf(),
        !obj.metadata@.marked_for_deletion(),
        add_patch is Ok,
        reconcile_post(obj, add_patch, remove_patch, ctx, r1),
        reconcile_post(r1.object, add_patch2, remove_patch2, ctx, r2),
    ensures
        r2.issued_add_patch == false,
        r2.issued_remove_patch == false,
        r2.object == r1.object,
        r2.result == r1.result,
{
    let fin = <ResourceObject<Sp, St> as Reconcilable>::finalizer_name_spec();
    crate::resource::lemma_with_finalizer_props(obj.metadata@, fin);
}

/// Apply the error policy: a successful invocation's action is honored, a
/// failed one is routed to the resource's error policy.
pub fn settle<Sp, St>(
    obj: &ResourceObject<Sp, St>,
    result: Result<Action, FinalizerError>,
    ctx: &ReconcileContext,
) -> (r: Action) where ResourceObject<Sp, St>: Reconcilable
    ensures
        ({
            match result {
                Ok(a) => r == a,
                Err(e) => r == obj.error_policy_spec(&e, ctx),
            }
        }),
{
    match result {
        Ok(a) => a,
        Err(e) => obj.error_policy(&e, ctx),
    }
}

/// What a resource type's controller supplies beyond its handlers: the kind
/// of resource it watches and the initial value of its metrics.
pub trait Controller {
    type Metrics;

    /// The kind of resource this controller watches.
    spec fn resource_kind_spec() -> Seq<char>;

    fn resource_kind() -> (r: String)
        ensures
            r@ == Self::resource_kind_spec(),
    ;

    /// The metrics value the controller starts with.
    fn init_metrics() -> Self::Metrics;
}

/// Start one controller: run the preflight checks on the outcomes of the two
/// cluster calls, and only when both pass hand back the reconcile context
/// the watch loop will run under, together with the controller's initial
/// metrics. On a preflight failure nothing is handed back — the watch loop
/// must not start — and the failure names the check that failed.
pub fn controller_init<C: Controller>(
    global_config: &GlobalConfig,
    namespace_fetch: Result<(), ClusterError>,
    resource_list: Result<(), ClusterError>,
) -> (r: Result<(ReconcileContext, C::Metrics), crate::errors::PreflightError>)
    ensures
        r is Ok <==> (namespace_fetch is Ok && resource_list is Ok),
        r is Err ==> Err::<(), crate::errors::PreflightError>(r->Err_0)
            == crate::preflight::spec_preflight(namespace_fetch, resource_list),
        r is Ok ==> ({
            let ctx = r->Ok_0.0;
            &&& ctx.spec_namespace_str() == global_config.spec_namespace_str()
            &&& ctx.spec_resource_kind() == C::resource_kind_spec()
            &&& ctx.spec_reconcile_interval() == global_config.spec_reconcile_interval()
            &&& ctx.spec_retry_interval() == global_config.spec_retry_interval()
        }),
{
    match crate::preflight::preflight(namespace_fetch, resource_list) {
        Err(e) => Err(e),
        Ok(u) => {
            let ctx = ReconcileContext::with_configs(global_config, C::resource_kind());
            Ok((ctx, C::init_metrics()))
        },
    }
}

} // verus!
