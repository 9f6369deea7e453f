use crate::buffer_pool::BufferPool;
use crate::config::StageConfig;
use crate::error::StageError;
use vstd::prelude::*;

verus! {

/// What the threshold scan hands back.
pub struct ClutterOutput<T> {
    /// The scanned samples, in a pooled buffer.
    pub samples: Vec<T>,
    /// The threshold the samples were held against.
    pub threshold: T,
    /// Indices of the samples above the threshold, in increasing order.
    pub hits: Vec<usize>,
}

/// `hits` is strictly increasing and every entry is below `n`.
pub open spec fn is_index_set(hits: Seq<usize>, n: nat) -> bool {
    &&& forall|a: int, b: int| 0 <= a < b < hits.len() ==> hits[a] < hits[b]
    &&& forall|a: int| 0 <= a < hits.len() ==> hits[a] < n
}

/// Two strictly increasing index sequences with the same members are equal.
proof fn lemma_sorted_same_members(h1: Seq<usize>, h2: Seq<usize>)
    requires
        forall|a: int, b: int| 0 <= a < b < h1.len() ==> h1[a] < h1[b],
        forall|a: int, b: int| 0 <= a < b < h2.len() ==> h2[a] < h2[b],
        forall|x: usize| h1.contains(x) <==> h2.contains(x),
    ensures
        h1 == h2,
    decreases h1.len(),
{
    if h1.len() == 0 {
        if h2.len() > 0 {
            assert(h2.contains(h2[0]));
        }
        assert(h1 =~= h2);
    } else {
        assert(h1.contains(h1[0]));
        assert(h2.len() > 0);
        assert(h2.contains(h2[0]));
        let j = choose|j: int| 0 <= j < h2.len() && h2[j] == h1[0];
        let k = choose|k: int| 0 <= k < h1.len() && h1[k] == h2[0];
        assert(h1[0] == h2[0]) by {
            if j > 0 {
                assert(h2[0] < h2[j]);
            }
            if k > 0 {
                assert(h1[0] < h1[k]);
            }
        }
        let t1 = h1.drop_first();
        let t2 = h2.drop_first();
        assert forall|x: usize| t1.contains(x) <==> t2.contains(x) by {
            if t1.contains(x) {
                let a = choose|a: int| 0 <= a < t1.len() && t1[a] == x;
                assert(h1[a + 1] == x);
                assert(h1.contains(x));
                let b = choose|b: int| 0 <= b < h2.len() && h2[b] == x;
                assert(b != 0) by {
                    assert(h1[0] < h1[a + 1]);
                }
                assert(t2[b - 1] == x);
            }
            if t2.contains(x) {
                let a = choose|a: int| 0 <= a < t2.len() && t2[a] == x;
                assert(h2[a + 1] == x);
                assert(h2.contains(x));
                let b = choose|b: int| 0 <= b < h1.len() && h1[b] == x;
                assert(b != 0) by {
                    assert(h2[0] < h2[a + 1]);
                }
                assert(t1[b - 1] == x);
            }
        }
        lemma_sorted_same_members(t1, t2);
        assert(h1 =~= h2) by {
            assert forall|i: int| 0 <= i < h1.len() implies h1[i] == h2[i] by {
                if i > 0 {
                    assert(h1[i] == t1[i - 1]);
                }
            }
        }
    }
}

/// The threshold scan is determined by its input: with a `level` that gives
/// one threshold per buffer contents and an `above` that gives one answer
/// per sample and threshold, two scans of the same samples agree on the
/// threshold and on the detected indices.
pub proof fn lemma_scan_deterministic<T, L: Fn(&Vec<T>) -> T, A: Fn(T, T) -> bool>(
    samples: Seq<T>,
    level: L,
    above: A,
    o1: ClutterOutput<T>,
    o2: ClutterOutput<T>,
)
    requires
        forall|b1: &Vec<T>, b2: &Vec<T>, t1: T, t2: T|
            b1@ == b2@ && level.ensures((b1,), t1) && level.ensures((b2,), t2) ==> t1 == t2,
        forall|v: T, t: T, a: bool, b: bool|
            above.ensures((v, t), a) && above.ensures((v, t), b) ==> a == b,
        o1.samples@ == samples,
        o2.samples@ == samples,
        level.ensures((&o1.samples,), o1.threshold),
        level.ensures((&o2.samples,), o2.threshold),
        is_index_set(o1.hits@, samples.len()),
        is_index_set(o2.hits@, samples.len()),
        forall|i: int|
            0 <= i < samples.len() ==> above.ensures(
                (#[trigger] samples[i], o1.threshold),
                o1.hits@.contains(i as usize),
            ),
        forall|i: int|
            0 <= i < samples.len() ==> above.ensures(
                (#[trigger] samples[i], o2.threshold),
                o2.hits@.contains(i as usize),
            ),
    ensures
        o1.threshold == o2.threshold,
        o1.hits@ == o2.hits@,
{
    assert(o1.threshold == o2.threshold);
    let h1 = o1.hits@;
    let h2 = o2.hits@;
    assert forall|x: usize| h1.contains(x) <==> h2.contains(x) by {
        if x < samples.len() {
            assert(above.ensures((samples[x as int], o1.threshold), h1.contains(x)));
            assert(above.ensures((samples[x as int], o2.threshold), h2.contains(x)));
        } else {
            if h1.contains(x) {
                let a = choose|a: int| 0 <= a < h1.len() && h1[a] == x;
            }
            if h2.contains(x) {
                let a = choose|a: int| 0 <= a < h2.len() && h2[a] == x;
            }
        }
    }
    lemma_sorted_same_members(h1, h2);
}

/// Clutter stage: finds the samples that stand above the clutter threshold.
pub struct ClutterStage<T> {
    pool: BufferPool<T>,
    config: Option<StageConfig>,
}

impl<T: Copy> ClutterStage<T> {
    pub closed spec fn wf(&self) -> bool {
        &&& self.pool.wf()
    }

    /// The configuration stored by `initialize`, if any.
    pub closed spec fn config(&self) -> Option<StageConfig> {
        self.config
    }

    /// The stage's buffer pool.
    pub closed spec fn pool(&self) -> BufferPool<T> {
        self.pool
    }

    pub fn new(pool_size: usize, fill: T) -> (r: Self)
        ensures
            r.wf(),
            r.config() is None,
            r.pool().free_len() == 0,
            r.pool().outstanding() == 0,
            r.pool().max_capacity() == pool_size,
            r.pool().fill_value() == fill,
    {
        ClutterStage { pool: BufferPool::with_capacity(pool_size, fill), config: None }
    }

    /// Stores the configuration; never fails.
    pub fn initialize(&mut self, config: &StageConfig) -> (r: Result<(), StageError>)
        requires
            old(self).wf(),
        ensures
            final(self).wf(),
            r is Ok,
            final(self).config() == Some(*config),
            final(self).pool() == old(self).pool(),
    {
        self.config = Some(*config);
        Ok(())
    }

    /// Copies the samples into a pooled buffer, takes the threshold that
    /// `level` gives for the buffer, and lists, in order, the indices of the
    /// samples that `above` finds over it.
    pub fn execute<L: Fn(&Vec<T>) -> T, A: Fn(T, T) -> bool>(
        &mut self,
        samples: &Vec<T>,
        level: L,
        above: A,
    ) -> (r: Result<ClutterOutput<T>, StageError>)
        requires
            old(self).wf(),
            forall|b: &Vec<T>| level.requires((b,)),
            forall|v: T, t: T| above.requires((v, t)),
        ensures
            final(self).wf(),
            final(self).config() == old(self).config(),
            old(self).config() is None ==> r is Err && r->Err_0 is Internal,
            old(self).config() is Some && samples@.len() == 0 ==> r is Err && r->Err_0 is InvalidInput,
            old(self).config() is Some && samples@.len() > 0 && old(self).pool().is_exhausted() ==> r is Err
                && r->Err_0 is BufferExhaustion,
            old(self).config() is Some && samples@.len() > 0 && !old(self).pool().is_exhausted() ==> r is Ok,
            r is Err ==> old(self).pool().same_as(final(self).pool()),
            r is Ok ==> {
                let out = r->Ok_0;
                &&& old(self).pool().checked_out_to(final(self).pool())
                &&& out.samples@ == samples@
                &&& level.ensures((&out.samples,), out.threshold)
                &&& is_index_set(out.hits@, samples@.len())
                &&& forall|i: int|
                    0 <= i < samples@.len() ==> above.ensures(
                        (#[trigger] samples@[i], out.threshold),
                        out.hits@.contains(i as usize),
                    )
            },
    {
        if self.config.is_none() {
            return Err(StageError::Internal("stage not initialized".to_string()));
        }
        if samples.len() == 0 {
            return Err(StageError::InvalidInput("no samples to scan".to_string()));
        }
        let n = samples.len();
        let mut buffer = match self.pool.checkout(n) {
            Ok(b) => b,
            Err(e) => {
                return Err(e);
            },
        };
        let mut k: usize = 0;
        while k < n
            invariant
                n == samples@.len(),
                k <= n,
                buffer@.len() == n,
                forall|j: int| 0 <= j < k ==> buffer@[j] == samples@[j],
            decreases n - k,
        {
            buffer.set(k, samples[k]);
            k = k + 1;
        }
        assert(buffer@ =~= samples@);
        let threshold = level(&buffer);
        let mut hits: Vec<usize> = Vec::new();
        let mut i: usize = 0;
        while i < n
            invariant
                n == samples@.len(),
                i <= n,
                buffer@ == samples@,
                forall|v: T, t: T| above.requires((v, t)),
                forall|a: int, b: int| 0 <= a < b < hits@.len() ==> hits@[a] < hits@[b],
                forall|a: int| 0 <= a < hits@.len() ==> hits@[a] < i,
                forall|j: int|
                    0 <= j < i ==> above.ensures(
                        (#[trigger] samples@[j], threshold),
                        hits@.contains(j as usize),
                    ),
            decreases n - i,
        {
            let hit = above(buffer[i], threshold);
            let ghost before = hits@;
            if hit {
                hits.push(i);
            }
            assert forall|j: int| 0 <= j < i + 1 implies above.ensures(
                (#[trigger] samples@[j], threshold),
                hits@.contains(j as usize),
            ) by {
                if j < i {
                    assert(before.contains(j as usize) == hits@.contains(j as usize)) by {
                        if hits@.contains(j as usize) && !before.contains(j as usize) {
                            let w = choose|w: int| 0 <= w < hits@.len() && hits@[w] == j as usize;
                            assert(w == before.len());
                        }
                        if before.contains(j as usize) {
                            let w = choose|w: int| 0 <= w < before.len() && before[w] == j as usize;
                            assert(hits@[w] == j as usize);
                        }
                    }
                } else {
                    if hit {
                        assert(hits@[before.len() as int] == i);
                    } else {
                        assert(!hits@.contains(i)) by {
                            if hits@.contains(i) {
                                let w = choose|w: int| 0 <= w < hits@.len() && hits@[w] == i;
                            }
                        }
                    }
                }
            }
            i = i + 1;
        }
        Ok(ClutterOutput { samples: buffer, threshold, hits })
    }

    /// Empties the pool and forgets the configuration.
    pub fn cleanup(&mut self)
        requires
            old(self).wf(),
        ensures
            final(self).wf(),
            final(self).config() is None,
            final(self).pool().free_len() == 0,
            final(self).pool().outstanding() == old(self).pool().outstanding(),
            final(self).pool().max_capacity() == old(self).pool().max_capacity(),
            final(self).pool().fill_value() == old(self).pool().fill_value(),
    {
        self.pool.reset();
        self.config = None;
    }
}

} // verus!
