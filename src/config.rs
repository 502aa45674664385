use vstd::prelude::*;
use crate::ignore::views;

verus! {

/// How many entries of one directory are handled at once.
pub const DEFAULT_BATCH_SIZE: usize = 1024;

/// The subtrees measured when no others are given.
pub fn default_targets() -> (r: Vec<String>)
    ensures
        views(r@) == seq!["/usr"@, "/var"@, "/home"@, "/boot"@],
{
    let mut r: Vec<String> = Vec::new();
    r.push(String::from_str("/usr"));
    r.push(String::from_str("/var"));
    r.push(String::from_str("/home"));
    r.push(String::from_str("/boot"));
    assert(views(r@) =~= seq!["/usr"@, "/var"@, "/home"@, "/boot"@]);
    r
}

/// Path fragments never counted: pseudo filesystems, volatile trees and
/// the administrator's home.
pub fn default_ignore_set() -> (r: Vec<String>)
    ensures
        views(r@) == seq![
            "/proc"@,
            "/sys"@,
            "/dev"@,
            "/run"@,
            "/tmp"@,
            "/mnt"@,
            "/lost+found"@,
            "/var/run"@,
            "/var/lock"@,
            "/var/tmp"@,
            "/root"@,
        ],
{
    let mut r: Vec<String> = Vec::new();
    r.push(String::from_str("/proc"));
    r.push(String::from_str("/sys"));
    r.push(String::from_str("/dev"));
    r.push(String::from_str("/run"));
    r.push(String::from_str("/tmp"));
    r.push(String::from_str("/mnt"));
    r.push(String::from_str("/lost+found"));
    r.push(String::from_str("/var/run"));
    r.push(String::from_str("/var/lock"));
    r.push(String::from_str("/var/tmp"));
    r.push(String::from_str("/root"));
    assert(views(r@) =~= seq![
        "/proc"@,
        "/sys"@,
        "/dev"@,
        "/run"@,
        "/tmp"@,
        "/mnt"@,
        "/lost+found"@,
        "/var/run"@,
        "/var/lock"@,
        "/var/tmp"@,
        "/root"@,
    ]);
    r
}

} // verus!
