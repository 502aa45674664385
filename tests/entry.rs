use rsdutil::config::{default_ignore_set, default_targets};
use rsdutil::entry::{
    classify_mode, entry_contribution, entry_path, free_bytes_from_stats, is_pseudo_entry,
    plan_entries, EntryKind, EntryOutcome,
};
use rsdutil::ignore::should_ignore;

fn strings(list: &[&str]) -> Vec<String> {
    list.iter().map(|s| s.to_string()).collect()
}

#[test]
fn ignore_is_substring_not_prefix() {
    let ignore = default_ignore_set();
    assert!(should_ignore("/proc", &ignore));
    assert!(should_ignore("/proc/1/status", &ignore));
    assert!(should_ignore("/home/u/tmpfiles", &ignore));
    assert!(should_ignore("/srv/backup/var/run/x", &ignore));
    assert!(!should_ignore("/home/u/docs", &ignore));
    assert!(!should_ignore("/usr/lib", &ignore));
    assert!(!should_ignore("", &ignore));
}

#[test]
fn a_fragment_inside_a_file_name_still_matches() {
    let ignore = default_ignore_set();
    assert!(should_ignore("/var/log/syslog", &ignore));
    assert!(!should_ignore("/var/log/messages", &ignore));
}

#[test]
fn empty_ignore_set_ignores_nothing() {
    let ignore: Vec<String> = Vec::new();
    assert!(!should_ignore("/proc", &ignore));
}

#[test]
fn entry_path_joins_with_a_slash() {
    assert_eq!(entry_path("/var", "log"), "/var/log");
    assert_eq!(entry_path("/", "usr"), "//usr");
}

#[test]
fn pseudo_entries_are_dot_and_dot_dot() {
    assert!(is_pseudo_entry("."));
    assert!(is_pseudo_entry(".."));
    assert!(!is_pseudo_entry("..."));
    assert!(!is_pseudo_entry(".a"));
    assert!(!is_pseudo_entry(""));
}

#[test]
fn plan_keeps_order_and_drops_pseudo_and_ignored() {
    let names = strings(&[".", "log", "..", "run", "tmp", "lib"]);
    let ignore = default_ignore_set();
    let planned = plan_entries("/var", &names, &ignore);
    assert_eq!(planned, strings(&["/var/log", "/var/lib"]));
}

#[test]
fn mode_type_bits_decide_the_kind() {
    assert_eq!(classify_mode(0o120777), EntryKind::Symlink);
    assert_eq!(classify_mode(0o040755), EntryKind::Directory);
    assert_eq!(classify_mode(0o100644), EntryKind::Other);
    assert_eq!(classify_mode(0o060660), EntryKind::Other);
}

#[test]
fn contribution_of_each_outcome() {
    assert_eq!(entry_contribution(&EntryOutcome::MetadataFailed), 0);
    assert_eq!(entry_contribution(&EntryOutcome::Symlink), 0);
    assert_eq!(entry_contribution(&EntryOutcome::Directory(77)), 77);
    assert_eq!(entry_contribution(&EntryOutcome::UnreadableDirectory), 0);
    assert_eq!(entry_contribution(&EntryOutcome::Other(5)), 5);
}

#[test]
fn free_bytes_is_blocks_times_block_size() {
    assert_eq!(free_bytes_from_stats(10, 4096), 40960);
    assert_eq!(free_bytes_from_stats(0, 4096), 0);
    assert_eq!(free_bytes_from_stats(u64::MAX, 2), u64::MAX);
}

#[test]
fn default_configuration() {
    assert_eq!(default_targets(), strings(&["/usr", "/var", "/home", "/boot"]));
    let ignore = default_ignore_set();
    assert_eq!(ignore.len(), 11);
    assert!(ignore.contains(&"/lost+found".to_string()));
    assert!(ignore.contains(&"/root".to_string()));
}
