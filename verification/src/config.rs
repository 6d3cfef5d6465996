//! Process-wide configuration.

use vstd::prelude::*;

verus! {

/// Configuration shared by every controller in the process: the target
/// namespace and the two scheduling intervals, in whole seconds.
pub struct GlobalConfig {
    namespace_str: String,
    reconcile_interval: u64,
    retry_interval: u64,
}

impl GlobalConfig {
    /// The namespace every registered controller watches.
    pub closed spec fn spec_namespace_str(self) -> Seq<char> {
        self.namespace_str@
    }

    /// Seconds between successful reconciles of the same object.
    pub closed spec fn spec_reconcile_interval(self) -> u64 {
        self.reconcile_interval
    }

    /// Seconds to wait before retrying a failed reconcile.
    pub closed spec fn spec_retry_interval(self) -> u64 {
        self.retry_interval
    }

    pub fn new(namespace_str: String, reconcile_interval: u64, retry_interval: u64) -> (r:
        GlobalConfig)
        ensures
            r.spec_namespace_str() == namespace_str@,
            r.spec_reconcile_interval() == reconcile_interval,
            r.spec_retry_interval() == retry_interval,
    {
        GlobalConfig { namespace_str, reconcile_interval, retry_interval }
    }

    pub fn namespace_str(&self) -> (r: &str)
        ensures
            r@ == self.spec_namespace_str(),
    {
        self.namespace_str.as_str()
    }

    pub fn reconcile_interval(&self) -> (r: u64)
        ensures
            r == self.spec_reconcile_interval(),
    {
        self.reconcile_interval
    }

    pub fn retry_interval(&self) -> (r: u64)
        ensures
            r == self.spec_retry_interval(),
    {
        self.retry_interval
    }
}

} // verus!
