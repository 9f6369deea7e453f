use crate::error::StageError;
use vstd::prelude::*;

verus! {

/// A buffer of `length` elements, each equal to `fill`.
pub open spec fn filled<T>(length: nat, fill: T) -> Seq<T> {
    Seq::new(length, |_i: int| fill)
}

/// A pool that has handed out `max_capacity` buffers, none of them
/// released, is exhausted once its free list is empty: the next checkout,
/// which would need a fresh allocation, fails.
///
/// `pools[0]` is a pool with nothing outstanding, and each later entry is the
/// one before it after a successful checkout.
pub proof fn lemma_exhausted_after_bound<T: Copy>(pools: Seq<BufferPool<T>>)
    requires
        pools.len() >= 1,
        pools[0].outstanding() == 0,
        pools.len() == pools[0].max_capacity() + 1,
        forall|i: int| 0 <= i < pools.len() - 1 ==> #[trigger] pools[i].checked_out_to(pools[i + 1]),
        pools.last().free_len() == 0,
    ensures
        pools.last().is_exhausted(),
{
    assert forall|i: int| 0 <= i < pools.len() implies #[trigger] pools[i].outstanding() == i
        && pools[i].max_capacity() == pools[0].max_capacity() by {
        lemma_count_after_checkouts(pools, i);
    }
}

proof fn lemma_count_after_checkouts<T: Copy>(pools: Seq<BufferPool<T>>, i: int)
    requires
        0 <= i < pools.len(),
        pools[0].outstanding() == 0,
        forall|j: int| 0 <= j < pools.len() - 1 ==> #[trigger] pools[j].checked_out_to(pools[j + 1]),
    ensures
        pools[i].outstanding() == i,
        pools[i].max_capacity() == pools[0].max_capacity(),
    decreases i,
{
    if i > 0 {
        lemma_count_after_checkouts(pools, i - 1);
        let j = i - 1;
        assert(pools[j].checked_out_to(pools[j + 1]));
        assert(j + 1 == i);
    }
}

/// Bounded pool of reusable sample buffers.
///
/// The pool counts the buffers it has handed out and not yet taken back, and
/// keeps released buffers, cleared, on a free list. A checkout hands out a
/// kept buffer when there is one, resized to the requested length with the
/// pool's fill value; otherwise it allocates a fresh one while fewer than
/// `max_capacity` buffers are out. Kept and outstanding buffers together
/// never exceed `max_capacity`.
pub struct BufferPool<T> {
    buffers: Vec<Vec<T>>,
    outstanding: usize,
    max_capacity: usize,
    fill: T,
}

impl<T: Copy> BufferPool<T> {
    /// Number of buffers on the free list.
    pub closed spec fn free_len(&self) -> nat {
        self.buffers@.len()
    }

    /// Number of buffers handed out and not yet released.
    pub closed spec fn outstanding(&self) -> nat {
        self.outstanding as nat
    }

    /// Bound on the buffers the pool keeps and hands out.
    pub closed spec fn max_capacity(&self) -> nat {
        self.max_capacity as nat
    }

    /// Value that fills every buffer handed out.
    pub closed spec fn fill_value(&self) -> T {
        self.fill
    }

    /// Kept and outstanding buffers are within the bound, and the free list
    /// holds only empty buffers.
    pub closed spec fn wf(&self) -> bool {
        &&& self.buffers@.len() + self.outstanding <= self.max_capacity
        &&& forall|i: int| 0 <= i < self.buffers@.len() ==> (#[trigger] self.buffers@[i])@.len() == 0
    }

    /// The bound that every pool keeps.
    pub open spec fn within_bound(&self) -> bool {
        self.free_len() + self.outstanding() <= self.max_capacity()
    }

    pub fn with_capacity(max_capacity: usize, fill: T) -> (r: Self)
        ensures
            r.wf(),
            r.within_bound(),
            r.free_len() == 0,
            r.outstanding() == 0,
            r.max_capacity() == max_capacity,
            r.fill_value() == fill,
    {
        BufferPool { buffers: Vec::with_capacity(max_capacity), outstanding: 0, max_capacity, fill }
    }

    /// The value that fills every buffer handed out.
    pub fn fill(&self) -> (r: T)
        ensures
            r == self.fill_value(),
    {
        self.fill
    }

    /// Whether `next` is this pool after a successful checkout.
    pub open spec fn checked_out_to(&self, next: Self) -> bool {
        &&& next.wf()
        &&& next.max_capacity() == self.max_capacity()
        &&& next.fill_value() == self.fill_value()
        &&& next.outstanding() == self.outstanding() + 1
        &&& next.free_len() == if self.free_len() > 0 { self.free_len() - 1 } else { 0 }
    }

    /// Whether `next` shows the same free list, count, bound and fill value.
    pub open spec fn same_as(&self, next: Self) -> bool {
        &&& next.free_len() == self.free_len()
        &&& next.outstanding() == self.outstanding()
        &&& next.max_capacity() == self.max_capacity()
        &&& next.fill_value() == self.fill_value()
    }

    /// Whether a checkout on this pool would fail: nothing is kept for reuse
    /// and `max_capacity` buffers are already out.
    pub open spec fn is_exhausted(&self) -> bool {
        self.free_len() == 0 && self.outstanding() >= self.max_capacity()
    }

    /// Hands out a buffer of exactly `length` fill values.
    ///
    /// Fails with `BufferExhaustion`, leaving the pool as it was, exactly when
    /// the free list is empty and `max_capacity` buffers are outstanding.
    pub fn checkout(&mut self, length: usize) -> (r: Result<Vec<T>, StageError>)
        requires
            old(self).wf(),
        ensures
            final(self).wf(),
            final(self).within_bound(),
            final(self).max_capacity() == old(self).max_capacity(),
            final(self).fill_value() == old(self).fill_value(),
            r is Err <==> old(self).is_exhausted(),
            r is Err ==> r->Err_0 is BufferExhaustion && old(self).same_as(*final(self)),
            r is Ok ==> r->Ok_0@ == filled(length as nat, old(self).fill_value()),
            r is Ok ==> old(self).checked_out_to(*final(self)),
    {
        let popped = self.buffers.pop();
        match popped {
            Some(buffer) => {
                let mut buffer = buffer;
                assert(buffer@.len() == 0) by {
                    assert(buffer == old(self).buffers@[old(self).buffers@.len() - 1]);
                }
                self.fill_to(&mut buffer, length);
                self.outstanding = self.outstanding + 1;
                Ok(buffer)
            },
            None => {
                if self.outstanding < self.max_capacity {
                    let mut buffer: Vec<T> = Vec::with_capacity(length);
                    self.fill_to(&mut buffer, length);
                    self.outstanding = self.outstanding + 1;
                    Ok(buffer)
                } else {
                    Err(StageError::BufferExhaustion("pool depleted".to_string()))
                }
            },
        }
    }

    /// Appends fill values to an empty buffer until it holds `length` of them.
    fn fill_to(&self, buffer: &mut Vec<T>, length: usize)
        requires
            old(buffer)@.len() == 0,
        ensures
            final(buffer)@ == filled(length as nat, self.fill),
    {
        let mut k: usize = 0;
        while k < length
            invariant
                k <= length,
                buffer@ == filled(k as nat, self.fill),
            decreases length - k,
        {
            buffer.push(self.fill);
            k = k + 1;
            assert(buffer@ =~= filled(k as nat, self.fill));
        }
    }

    /// Takes a buffer back: lowers the outstanding count by one (not below
    /// zero), clears the buffer and keeps it while kept and outstanding
    /// buffers stay within the bound; otherwise drops it.
    pub fn release(&mut self, buffer: Vec<T>)
        requires
            old(self).wf(),
        ensures
            final(self).wf(),
            final(self).within_bound(),
            final(self).max_capacity() == old(self).max_capacity(),
            final(self).fill_value() == old(self).fill_value(),
            final(self).outstanding() == if old(self).outstanding() > 0 {
                old(self).outstanding() - 1
            } else {
                0
            },
            old(self).free_len() + final(self).outstanding() < old(self).max_capacity()
                ==> final(self).free_len() == old(self).free_len() + 1,
            old(self).free_len() + final(self).outstanding() >= old(self).max_capacity()
                ==> final(self).free_len() == old(self).free_len(),
    {
        let mut buffer = buffer;
        buffer.clear();
        if self.outstanding > 0 {
            self.outstanding = self.outstanding - 1;
        }
        if self.buffers.len() < self.max_capacity - self.outstanding {
            self.buffers.push(buffer);
        }
    }

    /// Empties the free list; buffers still out stay counted.
    pub fn reset(&mut self)
        requires
            old(self).wf(),
        ensures
            final(self).wf(),
            final(self).within_bound(),
            final(self).free_len() == 0,
            final(self).outstanding() == old(self).outstanding(),
            final(self).max_capacity() == old(self).max_capacity(),
            final(self).fill_value() == old(self).fill_value(),
    {
        self.buffers.clear();
    }
}

} // verus!
