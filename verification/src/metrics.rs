//! Process-wide metrics.
//!
//! The peripheral HTTP surface reports these; the core only carries them.

use vstd::prelude::*;

verus! {

/// Metrics of the workspace controller. The placeholder controller keeps no
/// counters yet; the value exists so composition can aggregate it.
#[derive(Clone, Copy, Debug)]
pub struct WorkspaceMetrics;

impl Default for WorkspaceMetrics {
    fn default() -> (r: WorkspaceMetrics)
        ensures
            r == WorkspaceMetrics,
    {
        WorkspaceMetrics
    }
}

/// The metrics of every registered controller, bundled for the process.
#[derive(Clone, Copy, Debug)]
pub struct GlobalMetrics {
    _tfws_metrics: WorkspaceMetrics,
}

impl GlobalMetrics {
    pub closed spec fn spec_tfws_metrics(self) -> WorkspaceMetrics {
        self._tfws_metrics
    }

    pub fn new(tfws_metrics: WorkspaceMetrics) -> (r: GlobalMetrics)
        ensures
            r.spec_tfws_metrics() == tfws_metrics,
    {
        GlobalMetrics { _tfws_metrics: tfws_metrics }
    }
}

} // verus!
