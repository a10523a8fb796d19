//! Deriving the plugin's path from a directory and a file name, and telling
//! native-library file names apart by their suffix.
use vstd::prelude::*;

verus! {

/// The path separator placed between a directory and a file name.
pub const SEPARATOR: char = '/';

/// `s` ends with `suffix`.
pub open spec fn ends_with_spec(s: Seq<char>, suffix: Seq<char>) -> bool {
    suffix.len() <= s.len() && s.subrange(s.len() - suffix.len(), s.len() as int) == suffix
}

/// The directory joined with the file name, with a separator between them
/// unless the directory already ends with one.
pub open spec fn plugin_path_of(directory: Seq<char>, filename: Seq<char>) -> Seq<char> {
    if directory.len() > 0 && directory.last() == SEPARATOR {
        directory + filename
    } else {
        directory.push(SEPARATOR) + filename
    }
}

/// The path names a native library: it ends in `.so`, `.dll` or `.dylib`.
pub open spec fn has_native_suffix_spec(path: Seq<char>) -> bool {
    ends_with_spec(path, seq!['.', 's', 'o'])
        || ends_with_spec(path, seq!['.', 'd', 'l', 'l'])
        || ends_with_spec(path, seq!['.', 'd', 'y', 'l', 'i', 'b'])
}

/// Whether `s` ends with the characters of `suffix`.
pub fn ends_with(s: &str, suffix: &[char]) -> (r: bool)
    ensures
        r == ends_with_spec(s@, suffix@),
{
    let n = s.unicode_len();
    let m = suffix.len();
    if m > n {
        return false;
    }
    let start = n - m;
    let mut i: usize = 0;
    while i < m
        invariant
            m == suffix@.len(),
            n == s@.len(),
            start == n - m,
            i <= m,
            forall|k: int| 0 <= k < i ==> s@[start + k] == suffix@[k],
        decreases m - i,
    {
        if s.get_char(start + i) != suffix[i] {
            assert(s@.subrange(start as int, n as int)[i as int] != suffix@[i as int]);
            return false;
        }
        i = i + 1;
    }
    assert(s@.subrange(start as int, n as int) =~= suffix@);
    true
}

/// Joins `directory` and `filename` into the plugin's path, inserting a
/// separator only where the directory does not end with one.
pub fn derive_plugin_path(directory: &str, filename: &str) -> (path: String)
    ensures
        path@ == plugin_path_of(directory@, filename@),
{
    let n = directory.unicode_len();
    let mut path = String::from_str(directory);
    if n == 0 || directory.get_char(n - 1) != SEPARATOR {
        path.append("/");
        proof {
            reveal_strlit("/");
        }
        assert(path@ =~= directory@.push(SEPARATOR));
    }
    path.append(filename);
    path
}

/// Whether the path ends in one of the recognised native-library suffixes.
pub fn has_native_suffix(path: &str) -> (r: bool)
    ensures
        r == has_native_suffix_spec(path@),
{
    let so = ['.', 's', 'o'];
    let dll = ['.', 'd', 'l', 'l'];
    let dylib = ['.', 'd', 'y', 'l', 'i', 'b'];
    let a = ends_with(path, so.as_slice());
    let b = ends_with(path, dll.as_slice());
    let c = ends_with(path, dylib.as_slice());
    assert(so@ =~= seq!['.', 's', 'o']);
    assert(dll@ =~= seq!['.', 'd', 'l', 'l']);
    assert(dylib@ =~= seq!['.', 'd', 'y', 'l', 'i', 'b']);
    a || b || c
}

} // verus!
