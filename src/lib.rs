//! Disk usage of a set of directory trees: a recursive, symlink-avoiding,
//! batched scan with a substring ignore filter, and the report that gathers
//! the per-target totals with the free space of the volume.
use vstd::prelude::*;

pub mod config;
pub mod entry;
pub mod ignore;
pub mod laws;
pub mod memfs;
pub mod report;
pub mod walk;

verus! {

} // verus!
