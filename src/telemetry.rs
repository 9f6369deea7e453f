use vstd::prelude::*;

verus! {

/// Sink for log messages: keeps each recorded message, in order, for the
/// host to forward to its logger.
pub struct LogManager {
    entries: Vec<String>,
}

impl LogManager {
    /// The messages recorded so far.
    pub closed spec fn spec_entries(&self) -> Seq<Seq<char>> {
        self.entries@.map_values(|e: String| e@)
    }

    pub fn new() -> (r: Self)
        ensures
            r.spec_entries() == Seq::<Seq<char>>::empty(),
    {
        LogManager { entries: Vec::new() }
    }

    pub fn record(&mut self, message: &str)
        ensures
            final(self).spec_entries() == old(self).spec_entries().push(message@),
    {
        self.entries.push(message.to_owned());
        assert(self.spec_entries() =~= old(self).spec_entries().push(message@));
    }

    /// Hands out the recorded messages and forgets them.
    pub fn drain(&mut self) -> (r: Vec<String>)
        ensures
            r@.map_values(|e: String| e@) == old(self).spec_entries(),
            final(self).spec_entries() == Seq::<Seq<char>>::empty(),
    {
        let mut taken: Vec<String> = Vec::new();
        std::mem::swap(&mut taken, &mut self.entries);
        assert(self.spec_entries() =~= Seq::<Seq<char>>::empty());
        taken
    }
}

impl Default for LogManager {
    fn default() -> (r: Self)
        ensures
            r.spec_entries() == Seq::<Seq<char>>::empty(),
    {
        LogManager::new()
    }
}

/// Counters of processed bursts and of failures. Each count stops at
/// `usize::MAX`.
pub struct MetricsRecorder {
    processed: usize,
    errors: usize,
}

impl MetricsRecorder {
    pub closed spec fn spec_processed(&self) -> nat {
        self.processed as nat
    }

    pub closed spec fn spec_errors(&self) -> nat {
        self.errors as nat
    }

    pub fn new() -> (r: Self)
        ensures
            r.spec_processed() == 0,
            r.spec_errors() == 0,
    {
        MetricsRecorder { processed: 0, errors: 0 }
    }

    pub fn record_processed(&mut self)
        ensures
            final(self).spec_processed() == if old(self).spec_processed() < usize::MAX {
                old(self).spec_processed() + 1
            } else {
                old(self).spec_processed()
            },
            final(self).spec_errors() == old(self).spec_errors(),
    {
        if self.processed < usize::MAX {
            self.processed = self.processed + 1;
        }
    }

    pub fn record_error(&mut self)
        ensures
            final(self).spec_errors() == if old(self).spec_errors() < usize::MAX {
                old(self).spec_errors() + 1
            } else {
                old(self).spec_errors()
            },
            final(self).spec_processed() == old(self).spec_processed(),
    {
        if self.errors < usize::MAX {
            self.errors = self.errors + 1;
        }
    }

    /// The two counts, processed first.
    pub fn snapshot(&self) -> (r: (usize, usize))
        ensures
            r.0 == self.spec_processed(),
            r.1 == self.spec_errors(),
    {
        (self.processed, self.errors)
    }
}

impl Default for MetricsRecorder {
    fn default() -> (r: Self)
        ensures
            r.spec_processed() == 0,
            r.spec_errors() == 0,
    {
        MetricsRecorder::new()
    }
}

} // verus!
