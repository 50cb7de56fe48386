use vstd::prelude::*;

verus! {

/// A monotonically non-decreasing byte counter for upload progress.
///
/// Both flows report through this contract: the counter never exceeds the
/// total it was created with, never decreases, and the sink may read it
/// after every increment.
pub struct ProgressCounter {
    value: u64,
    total: u64,
}

impl ProgressCounter {
    /// The bytes recorded so far.
    pub closed spec fn spec_value(&self) -> u64 {
        self.value
    }

    /// The byte count at which the transfer is complete.
    pub closed spec fn spec_total(&self) -> u64 {
        self.total
    }

    /// The counter never runs past its total.
    pub open spec fn wf(&self) -> bool {
        self.spec_value() <= self.spec_total()
    }

    /// A fresh counter for a transfer of `total` bytes.
    pub fn new(total: u64) -> (c: Self)
        ensures
            c.spec_total() == total,
            c.spec_value() == 0,
            c.wf(),
    {
        ProgressCounter { value: 0, total }
    }

    /// Records `n` more transferred bytes, capping at the total.
    pub fn advance(&mut self, n: u64)
        requires
            old(self).wf(),
        ensures
            final(self).wf(),
            final(self).spec_total() == old(self).spec_total(),
            final(self).spec_value() >= old(self).spec_value(),
            final(self).spec_value() == if old(self).spec_value() + n
                >= old(self).spec_total() {
                old(self).spec_total()
            } else {
                (old(self).spec_value() + n) as u64
            },
    {
        if n >= self.total - self.value {
            self.value = self.total;
        } else {
            self.value = self.value + n;
        }
    }

    /// The bytes recorded so far.
    pub fn current(&self) -> (v: u64)
        ensures
            v == self.spec_value(),
    {
        self.value
    }

    /// Whether the whole transfer has been recorded.
    pub fn is_complete(&self) -> (r: bool)
        ensures
            r == (self.spec_value() == self.spec_total()),
    {
        self.value == self.total
    }
}

} // verus!
