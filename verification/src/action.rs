//! The result type a reconcile handler returns.

use vstd::prelude::*;

verus! {

/// What the engine should do for an object once a reconcile invocation
/// finishes. Every invocation produces exactly one `Action`.
///
/// Delays are measured in whole seconds.
#[derive(Clone, Copy, Debug, PartialEq, Eq, Structural)]
pub enum Action {
    /// Schedule another reconcile of the same object no later than the given
    /// number of seconds after this one.
    RequeueAfter(u64),
    /// Do not schedule a timer; rely solely on the next watch event.
    AwaitChange,
}

} // verus!
