//! Progress accounting for one task: bytes expected and bytes written.
//!
//! Both counters only grow. `total` is the sum of the content lengths of the
//! task's streams once discovered; `finished` is the sum of the byte counts
//! of every chunk written so far.

use vstd::prelude::*;

use crate::text::{format_progress, progress_rep};

verus! {

/// The pair of progress counters owned by one task and shared by its workers.
#[derive(Debug)]
pub struct Process {
    pub total: usize,
    pub finished: usize,
}

impl Process {
    /// Both counters start at zero.
    pub fn new() -> (p: Process)
        ensures
            p.total == 0,
            p.finished == 0,
    {
        Process { total: 0, finished: 0 }
    }

    /// Add one stream's content length to the bytes expected.
    /// The counter never decreases.
    pub fn add_total(&mut self, val: usize)
        requires
            old(self).total + val <= usize::MAX,
        ensures
            final(self).total == old(self).total + val,
            final(self).finished == old(self).finished,
    {
        self.total = self.total + val;
    }

    /// Add one written chunk's length to the bytes finished.
    /// The counter never decreases.
    pub fn add_finished(&mut self, val: usize)
        requires
            old(self).finished + val <= usize::MAX,
        ensures
            final(self).finished == old(self).finished + val,
            final(self).total == old(self).total,
    {
        self.finished = self.finished + val;
    }

    /// The bytes expected so far.
    pub fn total(&self) -> (t: usize)
        ensures
            t == self.total,
    {
        self.total
    }

    /// The bytes written so far.
    pub fn finished(&self) -> (f: usize)
        ensures
            f == self.finished,
    {
        self.finished
    }

    /// The `"<finished>/<total>"` rendering a caller polls.
    pub fn get(&self) -> (s: String)
        ensures
            s@ == progress_rep(self.finished as nat, self.total as nat),
    {
        format_progress(self.finished, self.total)
    }
}

} // verus!
