use crate::clutter::{is_index_set, ClutterOutput, ClutterStage};
use crate::config::{StageConfig, WorkflowConfig};
use crate::doppler::{framed, DopplerStage};
use crate::error::StageError;
use crate::range::{RangeOutput, RangeStage};
use vstd::prelude::*;

verus! {

/// The stages of the pipeline, in the order they run.
#[derive(Debug, Clone, Copy, PartialEq, Eq)]
pub enum StageKind {
    Range,
    Doppler,
    Clutter,
}

/// The lifecycle phase a stage was in when it failed.
#[derive(Debug, Clone, Copy, PartialEq, Eq)]
pub enum Phase {
    Initialize,
    Execute,
}

/// A stage error with the stage and phase it came from.
#[derive(Debug, Clone, PartialEq, Eq)]
pub struct StageFailure {
    pub stage: StageKind,
    pub phase: Phase,
    pub error: StageError,
}

/// The outputs of the three stages for one burst.
pub struct PipelineOutput<T> {
    pub range: RangeOutput<T>,
    pub doppler: Vec<T>,
    pub clutter: ClutterOutput<T>,
}

/// `n`, or one when `n` is zero.
pub open spec fn at_least_one(n: usize) -> usize {
    if n >= 1 { n } else { 1 }
}

fn pool_size(n: usize) -> (r: usize)
    ensures
        r == at_least_one(n),
{
    if n >= 1 { n } else { 1 }
}

/// Runs range compression, the Doppler transform and the clutter scan over
/// one burst, with fresh stages and pools on every call.
#[derive(Debug, Clone, Copy)]
pub struct Runner {
    config: WorkflowConfig,
}

impl Runner {
    pub closed spec fn spec_config(&self) -> WorkflowConfig {
        self.config
    }

    pub fn new(config: WorkflowConfig) -> (r: Self)
        ensures
            r.spec_config() == config,
    {
        Runner { config }
    }

    pub fn config(&self) -> (r: WorkflowConfig)
        ensures
            r == self.spec_config(),
    {
        self.config
    }

    /// Runs the three stages in turn, each through initialize, execute and
    /// cleanup, and stops at the first failure, naming its stage and phase.
    ///
    /// The run succeeds exactly when the burst holds `range_bins * taps`
    /// samples and `range_bins` is not zero.
    pub fn run_stages<
        T: Copy,
        P: Fn(T) -> T,
        S: Fn(Vec<T>) -> Vec<T>,
        L: Fn(&Vec<T>) -> T,
        A: Fn(T, T) -> bool,
    >(&self, samples: &Vec<T>, fill: T, power: P, spectrum: S, level: L, above: A) -> (r: Result<
        PipelineOutput<T>,
        StageFailure,
    >)
        requires
            self.spec_config().taps >= 1,
            forall|v: T| power.requires((v,)),
            forall|x: Vec<T>| spectrum.requires((x,)),
            forall|x: Vec<T>, y: Vec<T>| spectrum.ensures((x,), y) ==> y@.len() == x@.len(),
            forall|b: &Vec<T>| level.requires((b,)),
            forall|v: T, t: T| above.requires((v, t)),
        ensures
            ({
                let c = self.spec_config();
                let burst = c.range_bins as int * c.taps as int;
                &&& samples@.len() < burst ==> r is Err && r->Err_0.stage == StageKind::Range
                    && r->Err_0.phase == Phase::Execute && r->Err_0.error is InvalidInput
                &&& samples@.len() >= burst && c.range_bins == 0 ==> r is Err && r->Err_0.stage
                    == StageKind::Doppler && r->Err_0.phase == Phase::Execute
                    && r->Err_0.error is InvalidInput
                &&& samples@.len() >= burst && c.range_bins >= 1 ==> r is Ok
            }),
            r is Ok ==> {
                let c = self.spec_config();
                let out = r->Ok_0;
                let n = at_least_one(c.doppler_bins);
                &&& out.range.samples@ == samples@.subrange(0, c.range_bins as int)
                &&& out.range.power_profile@.len() == c.range_bins
                &&& forall|i: int|
                    0 <= i < c.range_bins ==> power.ensures(
                        (samples@[i],),
                        #[trigger] out.range.power_profile@[i],
                    )
                &&& out.doppler@.len() == n
                &&& exists|x: Vec<T>, y: Vec<T>|
                    x@ == framed(out.range.samples@, n as nat, fill) && #[trigger] spectrum.ensures(
                        (x,),
                        y,
                    ) && out.doppler@ == y@
                &&& out.clutter.samples@ == out.doppler@
                &&& level.ensures((&out.clutter.samples,), out.clutter.threshold)
                &&& is_index_set(out.clutter.hits@, n as nat)
                &&& forall|i: int|
                    0 <= i < n ==> above.ensures(
                        (#[trigger] out.doppler@[i], out.clutter.threshold),
                        out.clutter.hits@.contains(i as usize),
                    )
            },
    {
        let stage_config: StageConfig = self.config.to_stage_config();
        assert(stage_config.burst_len() >= stage_config.range_bins) by (nonlinear_arith)
            requires
                stage_config.taps >= 1,
        ;

        let mut range_stage = RangeStage::new(pool_size(stage_config.range_bins), fill);
        if let Err(e) = range_stage.initialize(&stage_config) {
            return Err(StageFailure { stage: StageKind::Range, phase: Phase::Initialize, error: e });
        }
        let range_output = match range_stage.execute(samples, power) {
            Ok(o) => o,
            Err(e) => {
                return Err(StageFailure { stage: StageKind::Range, phase: Phase::Execute, error: e });
            },
        };
        range_stage.cleanup();

        let mut doppler_stage = DopplerStage::new(pool_size(stage_config.doppler_bins), fill);
        if let Err(e) = doppler_stage.initialize(&stage_config) {
            return Err(
                StageFailure { stage: StageKind::Doppler, phase: Phase::Initialize, error: e },
            );
        }
        let doppler_output = match doppler_stage.execute(&range_output.samples, spectrum) {
            Ok(o) => o,
            Err(e) => {
                return Err(
                    StageFailure { stage: StageKind::Doppler, phase: Phase::Execute, error: e },
                );
            },
        };
        doppler_stage.cleanup();

        let mut clutter_stage = ClutterStage::new(pool_size(stage_config.range_bins), fill);
        if let Err(e) = clutter_stage.initialize(&stage_config) {
            return Err(
                StageFailure { stage: StageKind::Clutter, phase: Phase::Initialize, error: e },
            );
        }
        let clutter_output = match clutter_stage.execute(&doppler_output, level, above) {
            Ok(o) => o,
            Err(e) => {
                return Err(
                    StageFailure { stage: StageKind::Clutter, phase: Phase::Execute, error: e },
                );
            },
        };
        clutter_stage.cleanup();

        Ok(PipelineOutput { range: range_output, doppler: doppler_output, clutter: clutter_output })
    }
}

} // verus!
