use vstd::prelude::*;
use crate::entry::{
    cap, child_path, entry_contribution, entry_path, is_pseudo, is_pseudo_entry, EntryOutcome,
    ScanError,
};
use crate::ignore::{is_ignored, should_ignore, views};

verus! {

/// One entry of a directory: its name and the node it stands for.
pub struct Child {
    pub name: String,
    pub node: usize,
}

/// A filesystem entry as a metadata query that does not follow links sees it.
pub enum FsNode {
    /// A regular file, or any entry that is neither a directory nor a link.
    File { size: u64 },
    /// A symbolic link; what it points to is never looked at.
    Symlink { target: String },
    /// A directory that can be opened and listed.
    Dir { children: Vec<Child> },
    /// A directory that cannot be opened.
    Unreadable,
    /// An entry whose metadata query fails.
    Vanished,
}

/// A filesystem held in memory: nodes in a vector, each directory naming
/// its children by index. Children stand after their parent, so every walk
/// down the tree ends.
pub struct MemFs {
    pub nodes: Vec<FsNode>,
}

/// Number of entries of node `i` when it is a directory, else 0.
pub open spec fn entries_len(nodes: Seq<FsNode>, i: int) -> int {
    match nodes[i] {
        FsNode::Dir { children } => children@.len() as int,
        _ => 0,
    }
}

impl MemFs {
    /// Every entry of a directory names a node that stands after it.
    pub open spec fn wf(&self) -> bool {
        forall|i: int, j: int|
            #![trigger self.nodes@[i]->children@[j]]
            0 <= i < self.nodes@.len() && self.nodes@[i] is Dir && 0 <= j
                < self.nodes@[i]->children@.len() ==> i < self.nodes@[i]->children@[j].node
                < self.nodes@.len()
    }
}

/// Bytes counted under node `i`, reached at `path`, when only the first `k`
/// entries of a directory are looked at. A file counts its size; a link, an
/// unreadable directory and an entry whose metadata cannot be read count 0;
/// pseudo entries and ignored paths are skipped.
pub open spec fn partial_total(
    nodes: Seq<FsNode>,
    i: int,
    path: Seq<char>,
    ignore: Seq<Seq<char>>,
    k: int,
) -> nat
    decreases nodes.len() - i, k,
{
    if !(0 <= i < nodes.len()) {
        0
    } else {
        match nodes[i] {
            FsNode::File { size } => size as nat,
            FsNode::Dir { children } => {
                if k <= 0 || k > children@.len() {
                    0
                } else {
                    let c = children@[k - 1];
                    let cp = child_path(path, c.name@);
                    partial_total(nodes, i, path, ignore, k - 1) + if is_pseudo(c.name@)
                        || is_ignored(cp, ignore) || c.node <= i || c.node >= nodes.len() {
                        0
                    } else {
                        partial_total(nodes, c.node as int, cp, ignore, entries_len(nodes, c.node as int))
                    }
                }
            },
            _ => 0,
        }
    }
}

/// Bytes counted under node `i`, reached at `path`.
pub open spec fn tree_total(nodes: Seq<FsNode>, i: int, path: Seq<char>, ignore: Seq<Seq<char>>) -> nat {
    partial_total(nodes, i, path, ignore, entries_len(nodes, i))
}

/// Result of scanning node `root` at `path`: only a directory can be opened.
pub open spec fn scan_result(fs: &MemFs, root: int, path: Seq<char>, ignore: Seq<Seq<char>>) -> Result<u64, ScanError> {
    if fs.nodes@[root] is Dir {
        Ok(cap(tree_total(fs.nodes@, root, path, ignore)))
    } else {
        Err(ScanError::DirectoryUnreadable)
    }
}

impl MemFs {
    /// A filesystem that holds one empty directory, node 0.
    pub fn new() -> (r: MemFs)
        ensures
            r.wf(),
            r.nodes@.len() == 1,
            r.nodes@[0] is Dir,
            r.nodes@[0]->children@.len() == 0,
    {
        let mut nodes: Vec<FsNode> = Vec::new();
        nodes.push(FsNode::Dir { children: Vec::new() });
        MemFs { nodes }
    }

    /// Adds `node` to directory `dir` under `name` and returns its index.
    pub fn add_entry(&mut self, dir: usize, name: &str, node: FsNode) -> (r: usize)
        requires
            old(self).wf(),
            dir < old(self).nodes@.len(),
            old(self).nodes@[dir as int] is Dir,
            node is Dir ==> node->children@.len() == 0,
        ensures
            final(self).wf(),
            r == old(self).nodes@.len(),
            final(self).nodes@.len() == r + 1,
            final(self).nodes@[r as int] == node,
            final(self).nodes@[dir as int] is Dir,
            final(self).nodes@[dir as int]->children@.len() == old(self).nodes@[dir as int]->children@.len() + 1,
            final(self).nodes@[dir as int]->children@.drop_last() == old(self).nodes@[dir as int]->children@,
            final(self).nodes@[dir as int]->children@.last().name@ == name@,
            final(self).nodes@[dir as int]->children@.last().node == r,
            forall|k: int| 0 <= k < r && k != dir ==> final(self).nodes@[k] == old(self).nodes@[k],
    {
        let r = self.nodes.len();
        let mut taken = FsNode::Vanished;
        self.nodes.set_and_swap(dir, &mut taken);
        let updated = match taken {
            FsNode::Dir { mut children } => {
                children.push(Child { name: String::from_str(name), node: r });
                FsNode::Dir { children }
            },
            other => other,
        };
        self.nodes.set(dir, updated);
        self.nodes.push(node);
        proof {
            let n = self.nodes@;
            assert(n[dir as int]->children@.drop_last() =~= old(self).nodes@[dir as int]->children@);
            assert forall|i: int, j: int|
                0 <= i < n.len() && n[i] is Dir && 0 <= j < n[i]->children@.len() implies i
                    < #[trigger] n[i]->children@[j].node < n.len() by {
                if i == dir as int {
                    if j < old(self).nodes@[dir as int]->children@.len() {
                        assert(n[i]->children@[j] == old(self).nodes@[i]->children@[j]);
                    }
                } else if i < r {
                    assert(n[i] == old(self).nodes@[i]);
                }
            }
        }
        r
    }
}

impl MemFs {
    /// Scans the subtree of node `root`, found at `path`, in batches of at
    /// most `batch_size` entries per directory. The total does not depend on
    /// the batch size.
    pub fn scan(&self, root: usize, path: &str, ignore: &Vec<String>, batch_size: usize) -> (r:
        Result<u64, ScanError>)
        requires
            self.wf(),
            root < self.nodes@.len(),
            batch_size > 0,
        ensures
            r == scan_result(self, root as int, path@, views(ignore@)),
    {
        match &self.nodes[root] {
            FsNode::Dir { .. } => Ok(self.scan_dir(root, path, ignore, batch_size)),
            _ => Err(ScanError::DirectoryUnreadable),
        }
    }

    fn scan_dir(&self, i: usize, path: &str, ignore: &Vec<String>, batch_size: usize) -> (r: u64)
        requires
            self.wf(),
            i < self.nodes@.len(),
            self.nodes@[i as int] is Dir,
            batch_size > 0,
        ensures
            r == cap(tree_total(self.nodes@, i as int, path@, views(ignore@))),
        decreases self.nodes@.len() - i,
    {
        let ghost nodes = self.nodes@;
        let ghost ign = views(ignore@);
        let children = match &self.nodes[i] {
            FsNode::Dir { children } => children,
            _ => {
                return 0;
            },
        };
        let n = children.len();
        let mut total: u64 = 0;
        let mut start: usize = 0;
        while start < n
            invariant
                self.wf(),
                i < nodes.len(),
                nodes == self.nodes@,
                ign == views(ignore@),
                nodes[i as int] is Dir,
                *children == nodes[i as int]->children,
                n == children@.len(),
                batch_size > 0,
                start <= n,
                total == cap(partial_total(nodes, i as int, path@, ign, start as int)),
            decreases n - start,
        {
            let end: usize = if n - start > batch_size {
                start + batch_size
            } else {
                n
            };
            let mut batch: u64 = 0;
            let mut j: usize = start;
            while j < end
                invariant
                    self.wf(),
                    i < nodes.len(),
                    nodes == self.nodes@,
                    ign == views(ignore@),
                    nodes[i as int] is Dir,
                    *children == nodes[i as int]->children,
                    n == children@.len(),
                    batch_size > 0,
                    start <= j <= end <= n,
                    partial_total(nodes, i as int, path@, ign, start as int) <= partial_total(
                        nodes,
                        i as int,
                        path@,
                        ign,
                        j as int,
                    ),
                    batch == cap(
                        (partial_total(nodes, i as int, path@, ign, j as int) - partial_total(
                            nodes,
                            i as int,
                            path@,
                            ign,
                            start as int,
                        )) as nat,
                    ),
                decreases end - j,
            {
                let c = &children[j];
                let cp = entry_path(path, c.name.as_str());
                assert(i < c.node < nodes.len());
                let added: u64 = if is_pseudo_entry(c.name.as_str()) || should_ignore(
                    cp.as_str(),
                    ignore,
                ) {
                    0
                } else {
                    let outcome = match &self.nodes[c.node] {
                        FsNode::File { size } => EntryOutcome::Other(*size),
                        FsNode::Symlink { .. } => EntryOutcome::Symlink,
                        FsNode::Dir { .. } => EntryOutcome::Directory(
                            self.scan_dir(c.node, cp.as_str(), ignore, batch_size),
                        ),
                        FsNode::Unreadable => EntryOutcome::UnreadableDirectory,
                        FsNode::Vanished => EntryOutcome::MetadataFailed,
                    };
                    entry_contribution(&outcome)
                };
                assert(partial_total(nodes, i as int, path@, ign, j as int + 1) == partial_total(
                    nodes,
                    i as int,
                    path@,
                    ign,
                    j as int,
                ) + if is_pseudo(c.name@) || is_ignored(cp@, ign) {
                    0
                } else {
                    tree_total(nodes, c.node as int, cp@, ign)
                });
                batch = batch.saturating_add(added);
                j = j + 1;
            }
            total = total.saturating_add(batch);
            start = end;
        }
        total
    }
}

} // verus!
