use vstd::prelude::*;
use crate::entry::{cap, child_path, is_pseudo, seq_sum, EntryOutcome};
use crate::ignore::is_ignored;
use crate::memfs::{entries_len, partial_total, tree_total, FsNode, MemFs};
use crate::report::contributions;

verus! {

/// Sum of the sizes of the regular files under node `i`, looking at the
/// first `k` entries of a directory; pseudo entries hold no content.
pub open spec fn files_total(nodes: Seq<FsNode>, i: int, k: int) -> nat
    decreases nodes.len() - i, k,
{
    if !(0 <= i < nodes.len()) {
        0
    } else {
        match nodes[i] {
            FsNode::File { size } => size as nat,
            FsNode::Dir { children } => {
                if k <= 0 || k > children@.len() {
                    0
                } else {
                    let c = children@[k - 1];
                    files_total(nodes, i, k - 1) + if is_pseudo(c.name@) || c.node <= i || c.node
                        >= nodes.len() {
                        0
                    } else {
                        files_total(nodes, c.node as int, entries_len(nodes, c.node as int))
                    }
                }
            },
            _ => 0,
        }
    }
}

/// No entry under node `i`, reached at `path`, among the first `k` of a
/// directory, matches the ignore set.
pub open spec fn none_ignored(
    nodes: Seq<FsNode>,
    i: int,
    path: Seq<char>,
    ignore: Seq<Seq<char>>,
    k: int,
) -> bool
    decreases nodes.len() - i, k,
{
    if !(0 <= i < nodes.len()) {
        true
    } else {
        match nodes[i] {
            FsNode::Dir { children } => {
                if k <= 0 || k > children@.len() {
                    true
                } else {
                    let c = children@[k - 1];
                    let cp = child_path(path, c.name@);
                    none_ignored(nodes, i, path, ignore, k - 1) && (is_pseudo(c.name@) || (
                    !is_ignored(cp, ignore) && (c.node <= i || c.node >= nodes.len()
                        || none_ignored(nodes, c.node as int, cp, ignore, entries_len(nodes, c.node as int)))))
                }
            },
            _ => true,
        }
    }
}

proof fn lemma_partial_is_files(nodes: Seq<FsNode>, i: int, path: Seq<char>, ignore: Seq<Seq<char>>, k: int)
    requires
        none_ignored(nodes, i, path, ignore, k),
    ensures
        partial_total(nodes, i, path, ignore, k) == files_total(nodes, i, k),
    decreases nodes.len() - i, k,
{
    if 0 <= i < nodes.len() {
        if let FsNode::Dir { children } = nodes[i] {
            if 0 < k <= children@.len() {
                let c = children@[k - 1];
                let cp = child_path(path, c.name@);
                lemma_partial_is_files(nodes, i, path, ignore, k - 1);
                if !is_pseudo(c.name@) && i < c.node < nodes.len() {
                    lemma_partial_is_files(nodes, c.node as int, cp, ignore, entries_len(nodes, c.node as int));
                }
            }
        }
    }
}

/// Where no entry of a tree matches the ignore set, its scanned total is the
/// sum of the sizes of all regular files it holds, at any depth.
pub proof fn lemma_scan_sums_files(fs: &MemFs, root: int, path: Seq<char>, ignore: Seq<Seq<char>>)
    requires
        fs.wf(),
        0 <= root < fs.nodes@.len(),
        none_ignored(fs.nodes@, root, path, ignore, entries_len(fs.nodes@, root)),
    ensures
        tree_total(fs.nodes@, root, path, ignore) == files_total(fs.nodes@, root, entries_len(fs.nodes@, root)),
{
    lemma_partial_is_files(fs.nodes@, root, path, ignore, entries_len(fs.nodes@, root));
}

/// A symbolic link adds nothing to its directory, whatever it points to.
pub proof fn lemma_symlink_adds_nothing(fs: &MemFs, dir: int, path: Seq<char>, ignore: Seq<Seq<char>>, k: int)
    requires
        fs.wf(),
        0 <= dir < fs.nodes@.len(),
        fs.nodes@[dir] is Dir,
        0 <= k < fs.nodes@[dir]->children@.len(),
        fs.nodes@[fs.nodes@[dir]->children@[k].node as int] is Symlink,
    ensures
        partial_total(fs.nodes@, dir, path, ignore, k + 1) == partial_total(fs.nodes@, dir, path, ignore, k),
{
    let c = fs.nodes@[dir]->children@[k];
    let cp = child_path(path, c.name@);
    assert(dir < c.node < fs.nodes@.len());
    assert(partial_total(fs.nodes@, c.node as int, cp, ignore, entries_len(fs.nodes@, c.node as int)) == 0);
}

/// An entry whose path matches the ignore set adds nothing to its
/// directory, whatever lies beneath it.
pub proof fn lemma_ignored_adds_nothing(fs: &MemFs, dir: int, path: Seq<char>, ignore: Seq<Seq<char>>, k: int)
    requires
        0 <= dir < fs.nodes@.len(),
        fs.nodes@[dir] is Dir,
        0 <= k < fs.nodes@[dir]->children@.len(),
        is_ignored(child_path(path, fs.nodes@[dir]->children@[k].name@), ignore),
    ensures
        partial_total(fs.nodes@, dir, path, ignore, k + 1) == partial_total(fs.nodes@, dir, path, ignore, k),
{
}

proof fn lemma_skipped_prefix_is_zero(nodes: Seq<FsNode>, i: int, path: Seq<char>, ignore: Seq<Seq<char>>, k: int)
    requires
        0 <= i < nodes.len(),
        nodes[i] is Dir,
        k <= nodes[i]->children@.len(),
        forall|j: int|
            0 <= j < nodes[i]->children@.len() ==> is_ignored(
                child_path(path, (#[trigger] nodes[i]->children@[j]).name@),
                ignore,
            ),
    ensures
        partial_total(nodes, i, path, ignore, k) == 0,
    decreases k,
{
    if k > 0 {
        lemma_skipped_prefix_is_zero(nodes, i, path, ignore, k - 1);
        let c = nodes[i]->children@[k - 1];
        assert(is_ignored(child_path(path, c.name@), ignore));
    }
}

/// An empty directory, and one whose entries all match the ignore set,
/// scan to 0 bytes.
pub proof fn lemma_empty_or_all_ignored_is_zero(fs: &MemFs, dir: int, path: Seq<char>, ignore: Seq<Seq<char>>)
    requires
        0 <= dir < fs.nodes@.len(),
        fs.nodes@[dir] is Dir,
        forall|j: int|
            0 <= j < fs.nodes@[dir]->children@.len() ==> is_ignored(
                child_path(path, (#[trigger] fs.nodes@[dir]->children@[j]).name@),
                ignore,
            ),
    ensures
        tree_total(fs.nodes@, dir, path, ignore) == 0,
{
    lemma_skipped_prefix_is_zero(fs.nodes@, dir, path, ignore, entries_len(fs.nodes@, dir));
}

proof fn lemma_sum_without(s: Seq<u64>, m: int)
    requires
        0 <= m < s.len(),
    ensures
        seq_sum(s) == seq_sum(s.remove(m)) + s[m] as nat,
    decreases s.len(),
{
    if m == s.len() - 1 {
        assert(s.remove(m) =~= s.drop_last());
    } else {
        lemma_sum_without(s.drop_last(), m);
        assert(s.remove(m).drop_last() =~= s.drop_last().remove(m));
        assert(s.remove(m).last() == s.last());
    }
}

/// The bytes a batch adds do not depend on the order in which its entries
/// were finished: any two orders of the same outcomes sum alike, so the
/// number of workers sharing the batch cannot change the total.
pub proof fn lemma_batch_order_free(a: Seq<EntryOutcome>, b: Seq<EntryOutcome>)
    requires
        a.to_multiset() == b.to_multiset(),
    ensures
        seq_sum(contributions(a)) == seq_sum(contributions(b)),
    decreases a.len(),
{
    broadcast use vstd::seq_lib::group_to_multiset_ensures;

    if a.len() == 0 {
        vstd::seq_lib::to_multiset_len(a);
        vstd::seq_lib::to_multiset_len(b);
        assert(b.len() == a.len());
        assert(contributions(a) =~= Seq::<u64>::empty());
        assert(contributions(b) =~= Seq::<u64>::empty());
    } else {
        let x = a.last();
        let rest = a.drop_last();
        assert(rest.push(x) =~= a);
        assert(a.to_multiset() =~= rest.to_multiset().insert(x));
        assert(b.to_multiset().count(x) > 0);
        assert(b.contains(x));
        let m = choose|m: int| 0 <= m < b.len() && b[m] == x;
        let b2 = b.remove(m);
        assert(b2.to_multiset() =~= rest.to_multiset());
        lemma_batch_order_free(rest, b2);
        assert(contributions(a).drop_last() =~= contributions(rest));
        assert(contributions(b).remove(m) =~= contributions(b2));
        lemma_sum_without(contributions(b), m);
    }
}

proof fn lemma_sum_append(s: Seq<u64>, t: Seq<u64>)
    ensures
        seq_sum(s + t) == seq_sum(s) + seq_sum(t),
    decreases t.len(),
{
    if t.len() == 0 {
        assert(s + t =~= s);
    } else {
        lemma_sum_append(s, t.drop_last());
        assert((s + t).drop_last() =~= s + t.drop_last());
    }
}

/// Folding a directory's entries batch by batch, each batch's bytes added
/// to the running total, gives the total of one pass over all of them: the
/// batch boundaries do not change the result.
pub proof fn lemma_batches_fold_to_sum(first: Seq<EntryOutcome>, next: Seq<EntryOutcome>)
    ensures
        cap(cap(seq_sum(contributions(first))) as nat + seq_sum(contributions(next))) == cap(
            seq_sum(contributions(first + next)),
        ),
{
    assert(contributions(first + next) =~= contributions(first) + contributions(next));
    lemma_sum_append(contributions(first), contributions(next));
}

} // verus!
