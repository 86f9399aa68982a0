//! The progress counter behind the live display: processed count out of a
//! fixed total, advanced once per entry, finished exactly once.
//!
//! The surrounding program holds the counter behind its terminal progress bar;
//! the contracts here pin how the count may evolve: it never passes the total,
//! and completion can be reported only when every entry has been counted, and
//! only once.

use vstd::prelude::*;

verus! {

/// The state of a scan's progress: how many of `total` entries have been
/// processed, and whether completion has been reported.
pub struct ProgressCounter {
    processed: usize,
    total: usize,
    finished: bool,
}

impl ProgressCounter {
    /// The number of entries processed so far.
    pub closed spec fn processed(&self) -> usize {
        self.processed
    }

    /// The number of entries the scan covers.
    pub closed spec fn total(&self) -> usize {
        self.total
    }

    /// Whether completion has been reported.
    pub closed spec fn finished(&self) -> bool {
        self.finished
    }

    /// Every counter ever constructed stays within its total.
    pub closed spec fn wf(&self) -> bool {
        self.processed <= self.total
    }

    /// A fresh counter for a scan over `total` entries.
    pub fn new(total: usize) -> (r: ProgressCounter)
        ensures
            r.processed() == 0,
            r.total() == total,
            !r.finished(),
            r.wf(),
    {
        ProgressCounter { processed: 0, total, finished: false }
    }

    /// Read the processed count.
    pub fn count(&self) -> (n: usize)
        ensures
            n == self.processed(),
    {
        self.processed
    }

    /// Advance the processed count by one. Called exactly once per entry, so
    /// the count never passes the total.
    pub fn increment(&mut self)
        requires
            old(self).wf(),
            old(self).processed() < old(self).total(),
            !old(self).finished(),
        ensures
            final(self).processed() == old(self).processed() + 1,
            final(self).total() == old(self).total(),
            !final(self).finished(),
            final(self).wf(),
    {
        self.processed = self.processed + 1;
    }

    /// Report completion: allowed only when every entry has been counted, and
    /// only once.
    pub fn finish(&mut self)
        requires
            old(self).wf(),
            old(self).processed() == old(self).total(),
            !old(self).finished(),
        ensures
            final(self).processed() == old(self).processed(),
            final(self).total() == old(self).total(),
            final(self).finished(),
            final(self).wf(),
    {
        self.finished = true;
    }
}

} // verus!
