use vstd::prelude::*;

verus! {

/// The three dimensions every processing stage is configured with.
#[derive(Debug, Clone, Copy, PartialEq, Eq)]
pub struct StageConfig {
    pub taps: usize,
    pub range_bins: usize,
    pub doppler_bins: usize,
}

impl StageConfig {
    /// Every dimension is at least one.
    pub open spec fn is_valid(&self) -> bool {
        self.taps >= 1 && self.range_bins >= 1 && self.doppler_bins >= 1
    }

    /// Number of samples a burst must hold for range compression.
    pub open spec fn burst_len(&self) -> int {
        self.range_bins as int * self.taps as int
    }
}

/// Workflow-level configuration, as given on the command line or in a file.
#[derive(Debug, Clone, Copy, PartialEq, Eq)]
pub struct WorkflowConfig {
    pub taps: usize,
    pub range_bins: usize,
    pub doppler_bins: usize,
}

impl WorkflowConfig {
    pub fn from_args(taps: usize, range_bins: usize, doppler_bins: usize) -> (r: Self)
        ensures
            r.taps == taps,
            r.range_bins == range_bins,
            r.doppler_bins == doppler_bins,
    {
        WorkflowConfig { taps, range_bins, doppler_bins }
    }

    pub fn to_stage_config(&self) -> (r: StageConfig)
        ensures
            r.taps == self.taps,
            r.range_bins == self.range_bins,
            r.doppler_bins == self.doppler_bins,
    {
        StageConfig { taps: self.taps, range_bins: self.range_bins, doppler_bins: self.doppler_bins }
    }
}

} // verus!
