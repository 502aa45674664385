use rsdutil::entry::ScanError;
use rsdutil::config::{default_ignore_set, DEFAULT_BATCH_SIZE};
use rsdutil::memfs::{FsNode, MemFs};

fn frags(list: &[&str]) -> Vec<String> {
    list.iter().map(|s| s.to_string()).collect()
}

fn file(size: u64) -> FsNode {
    FsNode::File { size }
}

fn dir() -> FsNode {
    FsNode::Dir { children: Vec::new() }
}

#[test]
fn files_beside_an_ignored_subdirectory_sum_to_600() {
    let mut fs = MemFs::new();
    fs.add_entry(0, "a", file(100));
    fs.add_entry(0, "b", file(200));
    fs.add_entry(0, "c", file(300));
    let cache = fs.add_entry(0, "cache", dir());
    fs.add_entry(cache, "big", file(1_000_000));
    let ignore = frags(&["/D/cache"]);
    assert_eq!(fs.scan(0, "/D", &ignore, DEFAULT_BATCH_SIZE), Ok(600));
}

#[test]
fn nested_tree_sums_every_regular_file() {
    let mut fs = MemFs::new();
    fs.add_entry(0, "f", file(10));
    let a = fs.add_entry(0, "a", dir());
    fs.add_entry(a, "g", file(20));
    let b = fs.add_entry(a, "b", dir());
    fs.add_entry(b, "h", file(30));
    fs.add_entry(b, "i", file(40));
    let ignore: Vec<String> = Vec::new();
    assert_eq!(fs.scan(0, "/t", &ignore, DEFAULT_BATCH_SIZE), Ok(100));
    assert_eq!(fs.scan(a, "/t/a", &ignore, DEFAULT_BATCH_SIZE), Ok(90));
}

#[test]
fn symlink_to_a_large_file_counts_nothing() {
    let mut fs = MemFs::new();
    fs.add_entry(0, "small", file(5));
    fs.add_entry(0, "link", FsNode::Symlink { target: "/t/huge".to_string() });
    fs.add_entry(0, "loop", FsNode::Symlink { target: "/t".to_string() });
    let ignore: Vec<String> = Vec::new();
    assert_eq!(fs.scan(0, "/t", &ignore, DEFAULT_BATCH_SIZE), Ok(5));
}

#[test]
fn ignore_matches_fragments_anywhere_in_the_path() {
    let mut fs = MemFs::new();
    let home = fs.add_entry(0, "home", dir());
    let u = fs.add_entry(home, "u", dir());
    fs.add_entry(u, "tmpfiles", file(7));
    fs.add_entry(u, "docs", file(11));
    let ignore = default_ignore_set();
    assert_eq!(fs.scan(0, "", &ignore, DEFAULT_BATCH_SIZE), Ok(11));
}

#[test]
fn empty_directory_scans_to_zero() {
    let fs = MemFs::new();
    let ignore = default_ignore_set();
    assert_eq!(fs.scan(0, "/empty", &ignore, DEFAULT_BATCH_SIZE), Ok(0));
}

#[test]
fn directory_of_only_ignored_entries_scans_to_zero() {
    let mut fs = MemFs::new();
    fs.add_entry(0, "proc", file(123));
    let t = fs.add_entry(0, "tmp", dir());
    fs.add_entry(t, "x", file(9));
    let ignore = default_ignore_set();
    assert_eq!(fs.scan(0, "", &ignore, DEFAULT_BATCH_SIZE), Ok(0));
}

#[test]
fn batch_size_does_not_change_the_total() {
    let mut fs = MemFs::new();
    for k in 0..10u64 {
        fs.add_entry(0, &format!("f{}", k), file(k + 1));
    }
    let d = fs.add_entry(0, "d", dir());
    for k in 0..5u64 {
        fs.add_entry(d, &format!("g{}", k), file(100 * (k + 1)));
    }
    let ignore: Vec<String> = Vec::new();
    let one = fs.scan(0, "/b", &ignore, 1);
    assert_eq!(one, Ok(55 + 1500));
    for b in [2usize, 3, 7, 1024] {
        assert_eq!(fs.scan(0, "/b", &ignore, b), one);
    }
}

#[test]
fn two_scans_of_an_unchanged_tree_agree() {
    let mut fs = MemFs::new();
    fs.add_entry(0, "a", file(42));
    let d = fs.add_entry(0, "d", dir());
    fs.add_entry(d, "b", file(8));
    let ignore = default_ignore_set();
    let first = fs.scan(0, "/s", &ignore, DEFAULT_BATCH_SIZE);
    let second = fs.scan(0, "/s", &ignore, DEFAULT_BATCH_SIZE);
    assert_eq!(first, Ok(50));
    assert_eq!(first, second);
}

#[test]
fn unreadable_and_vanished_entries_count_zero() {
    let mut fs = MemFs::new();
    fs.add_entry(0, "locked", FsNode::Unreadable);
    fs.add_entry(0, "gone", FsNode::Vanished);
    fs.add_entry(0, "ok", file(3));
    let ignore: Vec<String> = Vec::new();
    assert_eq!(fs.scan(0, "/u", &ignore, DEFAULT_BATCH_SIZE), Ok(3));
}

#[test]
fn root_that_cannot_be_opened_is_an_error() {
    let mut fs = MemFs::new();
    let f = fs.add_entry(0, "f", file(3));
    let u = fs.add_entry(0, "u", FsNode::Unreadable);
    let ignore: Vec<String> = Vec::new();
    assert_eq!(fs.scan(f, "/r/f", &ignore, DEFAULT_BATCH_SIZE), Err(ScanError::DirectoryUnreadable));
    assert_eq!(fs.scan(u, "/r/u", &ignore, DEFAULT_BATCH_SIZE), Err(ScanError::DirectoryUnreadable));
}

#[test]
fn pseudo_entries_are_skipped() {
    let mut fs = MemFs::new();
    fs.add_entry(0, ".", file(1000));
    fs.add_entry(0, "..", file(2000));
    fs.add_entry(0, ".hidden", file(4));
    let ignore: Vec<String> = Vec::new();
    assert_eq!(fs.scan(0, "/p", &ignore, DEFAULT_BATCH_SIZE), Ok(4));
}

#[test]
fn sum_stops_at_the_largest_u64() {
    let mut fs = MemFs::new();
    fs.add_entry(0, "a", file(u64::MAX));
    let d = fs.add_entry(0, "d", dir());
    fs.add_entry(d, "b", file(u64::MAX));
    let ignore: Vec<String> = Vec::new();
    assert_eq!(fs.scan(0, "/m", &ignore, 1), Ok(u64::MAX));
}
