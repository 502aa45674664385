use vstd::prelude::*;
use crate::entry::{cap, plan_entries, planned, seq_sum, EntryOutcome};
use crate::ignore::views;
use crate::report::{batch_total, contributions};

verus! {

/// The running state of one directory scan on a real filesystem: names
/// read from the listing wait until a batch is full, and the bytes of the
/// batches handled so far are kept.
pub struct DirScan {
    pub dir: String,
    pub pending: Vec<String>,
    pub total: u64,
    pub batch_size: usize,
}

impl DirScan {
    pub open spec fn wf(&self) -> bool {
        0 < self.batch_size && self.pending@.len() < self.batch_size
    }

    /// A scan of `dir` that hands out at most `batch_size` names at a time.
    pub fn new(dir: &str, batch_size: usize) -> (r: DirScan)
        requires
            batch_size > 0,
        ensures
            r.wf(),
            r.dir@ == dir@,
            r.pending@.len() == 0,
            r.total == 0,
            r.batch_size == batch_size,
    {
        DirScan { dir: String::from_str(dir), pending: Vec::new(), total: 0, batch_size }
    }

    /// Takes the next name of the listing. Once `batch_size` names wait,
    /// returns the paths among them to query and starts a new batch.
    pub fn push_name(&mut self, name: String, ignore: &Vec<String>) -> (r: Option<Vec<String>>)
        requires
            old(self).wf(),
        ensures
            final(self).wf(),
            final(self).dir == old(self).dir,
            final(self).total == old(self).total,
            final(self).batch_size == old(self).batch_size,
            old(self).pending@.len() + 1 == old(self).batch_size ==> r.is_some()
                && views(r.unwrap()@) == planned(
                old(self).dir@,
                views(old(self).pending@.push(name)),
                views(ignore@),
            ) && final(self).pending@.len() == 0,
            old(self).pending@.len() + 1 < old(self).batch_size ==> r.is_none()
                && final(self).pending@ == old(self).pending@.push(name),
    {
        self.pending.push(name);
        if self.pending.len() >= self.batch_size {
            let paths = plan_entries(self.dir.as_str(), &self.pending, ignore);
            self.pending = Vec::new();
            Some(paths)
        } else {
            None
        }
    }

    /// After the listing ends: the paths to query among the names that wait.
    pub fn take_rest(&mut self, ignore: &Vec<String>) -> (r: Vec<String>)
        requires
            old(self).wf(),
        ensures
            final(self).wf(),
            final(self).dir == old(self).dir,
            final(self).total == old(self).total,
            final(self).batch_size == old(self).batch_size,
            final(self).pending@.len() == 0,
            views(r@) == planned(old(self).dir@, views(old(self).pending@), views(ignore@)),
    {
        let paths = plan_entries(self.dir.as_str(), &self.pending, ignore);
        self.pending = Vec::new();
        paths
    }

    /// Folds what the entries of one batch gave into the directory's total.
    pub fn add_outcomes(&mut self, outcomes: &Vec<EntryOutcome>)
        requires
            old(self).wf(),
        ensures
            final(self).wf(),
            final(self).dir == old(self).dir,
            final(self).pending == old(self).pending,
            final(self).batch_size == old(self).batch_size,
            final(self).total == cap(old(self).total as nat + seq_sum(contributions(outcomes@))),
    {
        let b = batch_total(outcomes);
        self.total = self.total.saturating_add(b);
    }
}

} // verus!
