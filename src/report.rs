use vstd::prelude::*;
use crate::entry::{cap, contribution_of, entry_contribution, seq_sum, EntryOutcome, ProbeError, ScanError};

verus! {

/// The outcome of scanning one top-level target.
pub struct TargetScan {
    pub path: String,
    pub result: Result<u64, ScanError>,
}

/// Bytes used by one target, as the report shows them.
pub struct TargetUsage {
    pub path: String,
    pub bytes: u64,
}

/// Bytes used per target, their sum, and the free bytes of the volume when
/// those could be read.
pub struct DiskReport {
    pub targets: Vec<TargetUsage>,
    pub total_used: u64,
    pub total_free: Option<u64>,
}

/// A failed scan counts as 0 bytes.
pub open spec fn bytes_of(r: Result<u64, ScanError>) -> u64 {
    match r {
        Ok(n) => n,
        Err(_) => 0,
    }
}

pub open spec fn used_bytes(scans: Seq<TargetScan>) -> Seq<u64> {
    scans.map_values(|t: TargetScan| bytes_of(t.result))
}

pub open spec fn free_of(free: Result<u64, ProbeError>) -> Option<u64> {
    match free {
        Ok(n) => Some(n),
        Err(_) => None,
    }
}

/// Assembles the report. Every target appears with its bytes, failed ones
/// with 0; the total is the plain sum over targets, so targets that overlap
/// are counted once each; a failed probe leaves the free space unknown.
pub fn build_report(scans: &Vec<TargetScan>, free: Result<u64, ProbeError>) -> (r: DiskReport)
    ensures
        r.targets@.len() == scans@.len(),
        forall|j: int|
            0 <= j < scans@.len() ==> (#[trigger] r.targets@[j]).path@ == scans@[j].path@
                && r.targets@[j].bytes == bytes_of(scans@[j].result),
        r.total_used == cap(seq_sum(used_bytes(scans@))),
        r.total_free == free_of(free),
{
    let mut targets: Vec<TargetUsage> = Vec::new();
    let mut total: u64 = 0;
    let mut i: usize = 0;
    while i < scans.len()
        invariant
            i <= scans@.len(),
            targets@.len() == i,
            forall|j: int|
                0 <= j < i ==> (#[trigger] targets@[j]).path@ == scans@[j].path@
                    && targets@[j].bytes == bytes_of(scans@[j].result),
            total == cap(seq_sum(used_bytes(scans@.subrange(0, i as int)))),
        decreases scans@.len() - i,
    {
        let t = &scans[i];
        let bytes: u64 = match t.result {
            Ok(n) => n,
            Err(_) => 0,
        };
        proof {
            assert(used_bytes(scans@.subrange(0, i as int + 1)).drop_last() =~= used_bytes(
                scans@.subrange(0, i as int),
            ));
        }
        total = total.saturating_add(bytes);
        targets.push(TargetUsage { path: t.path.clone(), bytes });
        i = i + 1;
    }
    assert(scans@.subrange(0, scans@.len() as int) =~= scans@);
    let total_free = match free {
        Ok(n) => Some(n),
        Err(_) => None,
    };
    DiskReport { targets, total_used: total, total_free }
}

pub open spec fn contributions(outcomes: Seq<EntryOutcome>) -> Seq<u64> {
    outcomes.map_values(|o: EntryOutcome| contribution_of(o))
}

/// Bytes that a batch of entries adds to its directory.
pub fn batch_total(outcomes: &Vec<EntryOutcome>) -> (r: u64)
    ensures
        r == cap(seq_sum(contributions(outcomes@))),
{
    let mut acc: u64 = 0;
    let mut i: usize = 0;
    while i < outcomes.len()
        invariant
            i <= outcomes@.len(),
            acc == cap(seq_sum(contributions(outcomes@.subrange(0, i as int)))),
        decreases outcomes@.len() - i,
    {
        proof {
            assert(contributions(outcomes@.subrange(0, i as int + 1)).drop_last() =~= contributions(
                outcomes@.subrange(0, i as int),
            ));
        }
        acc = acc.saturating_add(entry_contribution(&outcomes[i]));
        i = i + 1;
    }
    assert(outcomes@.subrange(0, outcomes@.len() as int) =~= outcomes@);
    acc
}

} // verus!
