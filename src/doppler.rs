use crate::buffer_pool::BufferPool;
use crate::config::StageConfig;
use crate::error::StageError;
use vstd::prelude::*;

verus! {

/// `s` zero-padded with `fill`, or truncated, to exactly `n` elements.
pub open spec fn framed<T>(s: Seq<T>, n: nat, fill: T) -> Seq<T> {
    Seq::new(n, |i: int| if i < s.len() { s[i] } else { fill })
}

/// Length of the transform for a configuration: `doppler_bins`, at least one.
pub open spec fn transform_len_for(config: StageConfig) -> nat {
    if config.doppler_bins >= 1 { config.doppler_bins as nat } else { 1 }
}

/// Doppler stage: frames the burst to the transform length, hands it to the
/// caller's spectrum (transform and magnitude), and keeps the magnitudes in a
/// pooled buffer.
pub struct DopplerStage<T> {
    pool: BufferPool<T>,
    config: Option<StageConfig>,
    transform_len: Option<usize>,
}

impl<T: Copy> DopplerStage<T> {
    pub closed spec fn wf(&self) -> bool {
        &&& self.pool.wf()
        &&& self.transform_len is Some ==> self.transform_len->Some_0 >= 1
    }

    /// The configuration stored by `initialize`, if any.
    pub closed spec fn config(&self) -> Option<StageConfig> {
        self.config
    }

    /// The length the transform is configured for, if it is configured.
    pub closed spec fn transform_len(&self) -> Option<usize> {
        self.transform_len
    }

    /// The stage's buffer pool.
    pub closed spec fn pool(&self) -> BufferPool<T> {
        self.pool
    }

    pub fn new(pool_size: usize, fill: T) -> (r: Self)
        ensures
            r.wf(),
            r.config() is None,
            r.transform_len() is None,
            r.pool().free_len() == 0,
            r.pool().outstanding() == 0,
            r.pool().max_capacity() == pool_size,
            r.pool().fill_value() == fill,
    {
        DopplerStage {
            pool: BufferPool::with_capacity(pool_size, fill),
            config: None,
            transform_len: None,
        }
    }

    /// Stores the configuration and sizes the transform; never fails.
    pub fn initialize(&mut self, config: &StageConfig) -> (r: Result<(), StageError>)
        requires
            old(self).wf(),
        ensures
            final(self).wf(),
            r is Ok,
            final(self).config() == Some(*config),
            final(self).transform_len() == Some(transform_len_for(*config) as usize),
            final(self).pool() == old(self).pool(),
    {
        self.config = Some(*config);
        let n = if config.doppler_bins >= 1 { config.doppler_bins } else { 1 };
        self.transform_len = Some(n);
        Ok(())
    }

    /// Runs `spectrum` on the burst framed to the transform length and
    /// returns its values in a pooled buffer.
    ///
    /// With a `spectrum` that keeps the length of its input, the result has
    /// exactly the transform length, whatever the length of the burst.
    pub fn execute<F: Fn(Vec<T>) -> Vec<T>>(&mut self, samples: &Vec<T>, spectrum: F) -> (r:
        Result<Vec<T>, StageError>)
        requires
            old(self).wf(),
            forall|x: Vec<T>| spectrum.requires((x,)),
            forall|x: Vec<T>, y: Vec<T>| spectrum.ensures((x,), y) ==> y@.len() == x@.len(),
        ensures
            final(self).wf(),
            final(self).config() == old(self).config(),
            final(self).transform_len() == old(self).transform_len(),
            samples@.len() == 0 ==> r is Err && r->Err_0 is InvalidInput,
            samples@.len() > 0 && old(self).transform_len() is None ==> r is Err && r->Err_0 is Internal,
            samples@.len() > 0 && old(self).transform_len() is Some && old(self).pool().is_exhausted()
                ==> r is Err && r->Err_0 is BufferExhaustion,
            samples@.len() > 0 && old(self).transform_len() is Some && !old(self).pool().is_exhausted()
                ==> r is Ok,
            r is Err ==> old(self).pool().same_as(final(self).pool()),
            r is Ok ==> {
                let n = old(self).transform_len()->Some_0;
                let fill = old(self).pool().fill_value();
                &&& old(self).pool().checked_out_to(final(self).pool())
                &&& r->Ok_0@.len() == n
                &&& exists|x: Vec<T>, y: Vec<T>|
                    x@ == framed(samples@, n as nat, fill) && #[trigger] spectrum.ensures((x,), y)
                        && r->Ok_0@ == y@
            },
    {
        if samples.len() == 0 {
            return Err(StageError::InvalidInput("no samples provided".to_string()));
        }
        let n = match self.transform_len {
            Some(n) => n,
            None => {
                return Err(StageError::Internal("transform not configured".to_string()));
            },
        };
        let fill = self.pool.fill();
        let mut frame: Vec<T> = Vec::with_capacity(n);
        let mut i: usize = 0;
        while i < n
            invariant
                i <= n,
                frame@ =~= framed(samples@, i as nat, fill),
            decreases n - i,
        {
            if i < samples.len() {
                frame.push(samples[i]);
            } else {
                frame.push(fill);
            }
            i = i + 1;
            assert(frame@ =~= framed(samples@, i as nat, fill));
        }
        let ghost input = frame;
        let values = spectrum(frame);
        let mut buffer = match self.pool.checkout(values.len()) {
            Ok(b) => b,
            Err(e) => {
                return Err(e);
            },
        };
        let mut k: usize = 0;
        while k < values.len()
            invariant
                k <= values@.len(),
                buffer@.len() == values@.len(),
                forall|j: int| 0 <= j < k ==> buffer@[j] == values@[j],
            decreases values@.len() - k,
        {
            buffer.set(k, values[k]);
            k = k + 1;
        }
        assert(buffer@ =~= values@);
        assert(spectrum.ensures((input,), values));
        Ok(buffer)
    }

    /// Drops the transform, empties the pool and forgets the configuration.
    pub fn cleanup(&mut self)
        requires
            old(self).wf(),
        ensures
            final(self).wf(),
            final(self).config() is None,
            final(self).transform_len() is None,
            final(self).pool().free_len() == 0,
            final(self).pool().outstanding() == old(self).pool().outstanding(),
            final(self).pool().max_capacity() == old(self).pool().max_capacity(),
            final(self).pool().fill_value() == old(self).pool().fill_value(),
    {
        self.pool.reset();
        self.config = None;
        self.transform_len = None;
    }
}

} // verus!
