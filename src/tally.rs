use vstd::prelude::*;

verus! {

/// Outcome counts of a run over several input files.
#[derive(Debug, Clone, Copy, PartialEq, Eq, Structural)]
pub struct ConversionTally {
    /// Files attempted.
    pub total: usize,
    /// Files converted.
    pub successful: usize,
    /// Files that failed.
    pub failed: usize,
}

impl ConversionTally {
    /// Every attempted file either succeeded or failed.
    pub open spec fn wf(self) -> bool {
        self.total == self.successful + self.failed
    }

    /// A tally of no files.
    pub fn new() -> (r: Self)
        ensures
            r.wf(),
            r.total == 0,
            r.successful == 0,
            r.failed == 0,
    {
        ConversionTally { total: 0, successful: 0, failed: 0 }
    }

    /// Counts one more file, converted or not.
    pub fn record(&mut self, succeeded: bool)
        requires
            old(self).wf(),
            old(self).total < usize::MAX,
        ensures
            final(self).wf(),
            final(self).total == old(self).total + 1,
            final(self).successful == old(self).successful + if succeeded { 1usize } else { 0usize },
            final(self).failed == old(self).failed + if succeeded { 0usize } else { 1usize },
    {
        self.total = self.total + 1;
        if succeeded {
            self.successful = self.successful + 1;
        } else {
            self.failed = self.failed + 1;
        }
    }

    /// A summary line is worth printing only when more than one file was given.
    pub fn shows_summary(&self) -> (r: bool)
        ensures
            r == (self.total > 1),
    {
        self.total > 1
    }

    /// The run ends in failure when any file failed.
    pub fn has_failures(&self) -> (r: bool)
        ensures
            r == (self.failed > 0),
    {
        self.failed > 0
    }
}

} // verus!
