use vstd::prelude::*;
use crate::ignore::{is_ignored, should_ignore, views};

verus! {

/// A byte count clamped to what a `u64` holds: sums stop at `u64::MAX`
/// instead of wrapping.
pub open spec fn cap(n: nat) -> u64 {
    if n > u64::MAX as nat { u64::MAX } else { n as u64 }
}

/// A directory could not be opened: it counts as 0 bytes for its parent.
#[derive(PartialEq, Eq, Structural, Clone, Copy, Debug)]
pub enum ScanError {
    DirectoryUnreadable,
}

/// The volume statistics query failed: the free-space figure is unknown.
#[derive(PartialEq, Eq, Structural, Clone, Copy, Debug)]
pub enum ProbeError {
    FreeSpaceQueryFailed,
}

/// The type bits of a file mode, as laid out by POSIX `st_mode`.
pub const S_IFMT: u32 = 0o170000;

pub const S_IFLNK: u32 = 0o120000;

pub const S_IFDIR: u32 = 0o040000;

/// What a metadata query that does not follow links says an entry is.
#[derive(PartialEq, Eq, Structural, Clone, Copy, Debug)]
pub enum EntryKind {
    Symlink,
    Directory,
    Other,
}

pub open spec fn kind_of_mode(mode: u32) -> EntryKind {
    if mode & S_IFMT == S_IFLNK {
        EntryKind::Symlink
    } else if mode & S_IFMT == S_IFDIR {
        EntryKind::Directory
    } else {
        EntryKind::Other
    }
}

/// Reads the entry kind out of the type bits of `mode`.
pub fn classify_mode(mode: u32) -> (r: EntryKind)
    ensures
        r == kind_of_mode(mode),
{
    let t = mode & S_IFMT;
    if t == S_IFLNK {
        EntryKind::Symlink
    } else if t == S_IFDIR {
        EntryKind::Directory
    } else {
        EntryKind::Other
    }
}

/// What became of one entry once its metadata was queried and, for a
/// directory, its subtree scanned.
#[derive(PartialEq, Eq, Structural, Clone, Copy, Debug)]
pub enum EntryOutcome {
    MetadataFailed,
    Symlink,
    Directory(u64),
    UnreadableDirectory,
    Other(u64),
}

pub open spec fn contribution_of(o: EntryOutcome) -> u64 {
    match o {
        EntryOutcome::MetadataFailed => 0,
        EntryOutcome::Symlink => 0,
        EntryOutcome::Directory(n) => n,
        EntryOutcome::UnreadableDirectory => 0,
        EntryOutcome::Other(n) => n,
    }
}

/// Bytes that one entry adds to its directory: links and failures add nothing.
pub fn entry_contribution(o: &EntryOutcome) -> (r: u64)
    ensures
        r == contribution_of(*o),
{
    match o {
        EntryOutcome::MetadataFailed => 0,
        EntryOutcome::Symlink => 0,
        EntryOutcome::Directory(n) => *n,
        EntryOutcome::UnreadableDirectory => 0,
        EntryOutcome::Other(n) => *n,
    }
}

/// The full path of entry `name` inside directory `dir`.
pub open spec fn child_path(dir: Seq<char>, name: Seq<char>) -> Seq<char> {
    dir + seq!['/'] + name
}

pub fn entry_path(dir: &str, name: &str) -> (r: String)
    ensures
        r@ == child_path(dir@, name@),
{
    let mut s = String::from_str(dir);
    let sep: &str = "/";
    proof {
        reveal_strlit("/");
    }
    s.append(sep);
    s.append(name);
    s
}

/// The self and parent entries that every directory listing holds.
pub open spec fn is_pseudo(name: Seq<char>) -> bool {
    name == seq!['.'] || name == seq!['.', '.']
}

pub fn is_pseudo_entry(name: &str) -> (r: bool)
    ensures
        r == is_pseudo(name@),
{
    let n = name.unicode_len();
    if n == 1 {
        let r = name.get_char(0) == '.';
        assert(r ==> name@ =~= seq!['.']);
        r
    } else if n == 2 {
        let r = name.get_char(0) == '.' && name.get_char(1) == '.';
        assert(r ==> name@ =~= seq!['.', '.']);
        r
    } else {
        false
    }
}

/// Paths of the entries of `names` that a scan of `dir` queries, in listing
/// order: neither pseudo entries nor ignored paths.
pub open spec fn planned(dir: Seq<char>, names: Seq<Seq<char>>, ignore: Seq<Seq<char>>) -> Seq<Seq<char>>
    decreases names.len(),
{
    if names.len() == 0 {
        seq![]
    } else {
        let prev = planned(dir, names.drop_last(), ignore);
        let p = child_path(dir, names.last());
        if is_pseudo(names.last()) || is_ignored(p, ignore) {
            prev
        } else {
            prev.push(p)
        }
    }
}

/// From the names that listing `dir` gave, the full paths whose metadata is
/// to be queried. No ignored path is among them.
pub fn plan_entries(dir: &str, names: &Vec<String>, ignore: &Vec<String>) -> (r: Vec<String>)
    ensures
        views(r@) == planned(dir@, views(names@), views(ignore@)),
        forall|j: int| 0 <= j < r@.len() ==> !is_ignored(#[trigger] r@[j]@, views(ignore@)),
{
    let mut r: Vec<String> = Vec::new();
    let mut i: usize = 0;
    while i < names.len()
        invariant
            i <= names.len(),
            views(r@) == planned(dir@, views(names@.subrange(0, i as int)), views(ignore@)),
            forall|j: int| 0 <= j < r@.len() ==> !is_ignored(#[trigger] r@[j]@, views(ignore@)),
        decreases names.len() - i,
    {
        let name = names[i].as_str();
        let p = entry_path(dir, name);
        let pseudo = is_pseudo_entry(name);
        let ig = should_ignore(p.as_str(), ignore);
        proof {
            let pre = views(names@.subrange(0, i as int + 1));
            assert(pre.drop_last() =~= views(names@.subrange(0, i as int)));
            assert(pre.last() == names@[i as int]@);
        }
        if !pseudo && !ig {
            r.push(p);
            proof {
                assert(views(r@) =~= planned(dir@, views(names@.subrange(0, i as int)), views(ignore@)).push(
                    r@.last()@));
            }
        }
        i = i + 1;
    }
    assert(names@.subrange(0, names@.len() as int) =~= names@);
    r
}

/// Sum of a sequence of byte counts.
pub open spec fn seq_sum(s: Seq<u64>) -> nat
    decreases s.len(),
{
    if s.len() == 0 {
        0
    } else {
        seq_sum(s.drop_last()) + s.last() as nat
    }
}

/// Free bytes of a volume from its free block count and block size.
pub fn free_bytes_from_stats(free_blocks: u64, block_size: u64) -> (r: u64)
    ensures
        r == cap(free_blocks as nat * block_size as nat),
{
    match free_blocks.checked_mul(block_size) {
        Some(n) => n,
        None => u64::MAX,
    }
}

} // verus!
