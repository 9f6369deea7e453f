use crate::buffer_pool::BufferPool;
use crate::config::StageConfig;
use crate::error::StageError;
use vstd::prelude::*;

verus! {

/// What range compression hands to the next stage.
pub struct RangeOutput<T> {
    /// The leading `range_bins` samples of the burst.
    pub samples: Vec<T>,
    /// The power of each extracted sample.
    pub power_profile: Vec<T>,
}

/// Range-compression stage: extracts the first pulse of a burst and its
/// power profile.
pub struct RangeStage<T> {
    pool: BufferPool<T>,
    config: Option<StageConfig>,
}

impl<T: Copy> RangeStage<T> {
    pub closed spec fn wf(&self) -> bool {
        &&& self.pool.wf()
        &&& self.config is Some ==> self.config->Some_0.taps >= 1
    }

    /// The configuration stored by `initialize`, if any.
    pub closed spec fn config(&self) -> Option<StageConfig> {
        self.config
    }

    /// The stage's buffer pool.
    pub closed spec fn pool(&self) -> BufferPool<T> {
        self.pool
    }

    pub fn new(pool_size: usize, fill: T) -> (r: Self)
        ensures
            r.wf(),
            r.config() is None,
            r.pool().free_len() == 0,
            r.pool().outstanding() == 0,
            r.pool().max_capacity() == pool_size,
            r.pool().fill_value() == fill,
    {
        RangeStage { pool: BufferPool::with_capacity(pool_size, fill), config: None }
    }

    /// Stores the configuration; never fails.
    pub fn initialize(&mut self, config: &StageConfig) -> (r: Result<(), StageError>)
        requires
            old(self).wf(),
            config.taps >= 1,
        ensures
            final(self).wf(),
            r is Ok,
            final(self).config() == Some(*config),
            final(self).pool() == old(self).pool(),
    {
        self.config = Some(*config);
        Ok(())
    }

    /// Copies the leading `range_bins` samples of a burst of at least
    /// `range_bins * taps` samples into a pooled buffer, with the power of
    /// each one as given by `power`.
    pub fn execute<F: Fn(T) -> T>(&mut self, samples: &Vec<T>, power: F) -> (r: Result<
        RangeOutput<T>,
        StageError,
    >)
        requires
            old(self).wf(),
            forall|v: T| power.requires((v,)),
        ensures
            final(self).wf(),
            final(self).config() == old(self).config(),
            old(self).config() is None ==> r is Err && r->Err_0 is Internal,
            old(self).config() is Some ==> {
                let c = old(self).config()->Some_0;
                &&& samples@.len() < c.burst_len() ==> r is Err && r->Err_0 is InvalidInput
                &&& samples@.len() >= c.burst_len() && old(self).pool().is_exhausted() ==> r is Err
                    && r->Err_0 is BufferExhaustion
                &&& samples@.len() >= c.burst_len() && !old(self).pool().is_exhausted() ==> r is Ok
            },
            r is Err ==> old(self).pool().same_as(final(self).pool()),
            r is Ok ==> {
                let c = old(self).config()->Some_0;
                let out = r->Ok_0;
                &&& old(self).pool().checked_out_to(final(self).pool())
                &&& out.samples@ == samples@.subrange(0, c.range_bins as int)
                &&& out.power_profile@.len() == c.range_bins
                &&& forall|i: int|
                    0 <= i < c.range_bins ==> power.ensures(
                        (samples@[i],),
                        #[trigger] out.power_profile@[i],
                    )
            },
    {
        let config = match self.config {
            Some(c) => c,
            None => {
                return Err(StageError::Internal("stage not initialized".to_string()));
            },
        };
        let len = samples.len();
        let too_short: bool = match config.range_bins.checked_mul(config.taps) {
            Some(expected) => len < expected,
            None => true,
        };
        assert(too_short == (samples@.len() < config.burst_len()));
        if too_short {
            return Err(StageError::InvalidInput("burst shorter than range_bins * taps".to_string()));
        }
        assert(config.burst_len() >= config.range_bins) by (nonlinear_arith)
            requires
                config.taps >= 1,
        ;
        let mut payload = match self.pool.checkout(config.range_bins) {
            Ok(b) => b,
            Err(e) => {
                return Err(e);
            },
        };
        let n = config.range_bins;
        let mut i: usize = 0;
        while i < n
            invariant
                n == config.range_bins,
                n <= samples@.len(),
                i <= n,
                payload@.len() == n,
                forall|j: int| 0 <= j < i ==> payload@[j] == samples@[j],
            decreases n - i,
        {
            payload.set(i, samples[i]);
            i = i + 1;
        }
        assert(payload@ =~= samples@.subrange(0, n as int));
        let mut power_profile: Vec<T> = Vec::with_capacity(n);
        let mut k: usize = 0;
        while k < n
            invariant
                n == config.range_bins,
                k <= n,
                n <= samples@.len(),
                payload@ == samples@.subrange(0, n as int),
                power_profile@.len() == k,
                forall|v: T| power.requires((v,)),
                forall|j: int|
                    0 <= j < k ==> power.ensures((samples@[j],), #[trigger] power_profile@[j]),
            decreases n - k,
        {
            let p = power(payload[k]);
            power_profile.push(p);
            k = k + 1;
        }
        Ok(RangeOutput { samples: payload, power_profile })
    }

    /// Empties the pool and forgets the configuration.
    pub fn cleanup(&mut self)
        requires
            old(self).wf(),
        ensures
            final(self).wf(),
            final(self).config() is None,
            final(self).pool().free_len() == 0,
            final(self).pool().outstanding() == old(self).pool().outstanding(),
            final(self).pool().max_capacity() == old(self).pool().max_capacity(),
            final(self).pool().fill_value() == old(self).pool().fill_value(),
    {
        self.pool.reset();
        self.config = None;
    }
}

} // verus!
