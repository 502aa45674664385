use vstd::prelude::*;

verus! {

/// `frag` occurs in `s` as a contiguous run of characters.
pub open spec fn contains_seq(s: Seq<char>, frag: Seq<char>) -> bool {
    exists|k: int| 0 <= k && k + frag.len() <= s.len() && #[trigger] s.subrange(k, k + frag.len()) == frag
}

/// Relies on `str::contains` with a `&str` pattern: true exactly when
/// `pat` matches a sub-slice of `s`.
#[verifier::external_body]
fn str_contains(s: &str, pat: &str) -> (r: bool)
    ensures
        r == contains_seq(s@, pat@),
{
    s.contains(pat)
}

/// A path is ignored when any fragment of the ignore set occurs in it.
pub open spec fn is_ignored(path: Seq<char>, ignore: Seq<Seq<char>>) -> bool {
    exists|i: int| 0 <= i < ignore.len() && contains_seq(path, #[trigger] ignore[i])
}

/// The character sequences of a list of strings.
pub open spec fn views(v: Seq<String>) -> Seq<Seq<char>> {
    v.map_values(|s: String| s@)
}

/// Whether `entry` contains any fragment of `ignore` as a substring.
pub fn should_ignore(entry: &str, ignore: &Vec<String>) -> (r: bool)
    ensures
        r == is_ignored(entry@, views(ignore@)),
{
    let mut i: usize = 0;
    while i < ignore.len()
        invariant
            i <= ignore.len(),
            forall|j: int| 0 <= j < i ==> !contains_seq(entry@, #[trigger] views(ignore@)[j]),
        decreases ignore.len() - i,
    {
        if str_contains(entry, ignore[i].as_str()) {
            assert(contains_seq(entry@, views(ignore@)[i as int]));
            return true;
        }
        i = i + 1;
    }
    false
}

} // verus!
