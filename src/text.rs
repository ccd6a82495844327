//! Small verified operations on strings, stated over their character sequences.

use vstd::prelude::*;
use vstd::string::*;

verus! {

/// `prefix` begins `s`.
pub open spec fn has_prefix(s: Seq<char>, prefix: Seq<char>) -> bool {
    prefix.len() <= s.len() && s.subrange(0, prefix.len() as int) == prefix
}

/// `needle` stands somewhere in `s`.
pub open spec fn has_infix(s: Seq<char>, needle: Seq<char>) -> bool {
    exists|k: int| 0 <= k && k + needle.len() <= s.len() && #[trigger] s.subrange(k, k + needle.len()) == needle
}

/// The characters of an optional string.
pub open spec fn opt_view(o: Option<String>) -> Option<Seq<char>> {
    match o {
        Some(s) => Some(s@),
        None => None,
    }
}

/// Whether the two strings hold the same characters.
pub fn equals(s: &str, t: &str) -> (r: bool)
    ensures
        r == (s@ == t@),
{
    let n = s.unicode_len();
    let m = t.unicode_len();
    if m != n {
        return false;
    }
    let r = matches_at(s, 0, t);
    assert(s@.subrange(0, n as int) =~= s@);
    r
}

/// An owned copy of a string slice.
pub fn owned(s: &str) -> (r: String)
    ensures
        r@ == s@,
{
    String::from_str(s)
}

/// Whether `s@` and `t@` hold the same characters at `s@[start..]` and `t@[..]`.
fn matches_at(s: &str, start: usize, t: &str) -> (r: bool)
    requires
        start + t@.len() <= s@.len(),
        s@.len() <= usize::MAX,
    ensures
        r == (s@.subrange(start as int, start + t@.len()) == t@),
{
    let n = t.unicode_len();
    let mut i: usize = 0;
    while i < n
        invariant
            n == t@.len(),
            i <= n,
            start + n <= s@.len(),
            s@.len() <= usize::MAX,
            forall|j: int| 0 <= j < i ==> s@[start + j] == t@[j],
        decreases n - i,
    {
        if s.get_char(start + i) != t.get_char(i) {
            assert(s@.subrange(start as int, start + n)[i as int] != t@[i as int]);
            return false;
        }
        i = i + 1;
    }
    assert(s@.subrange(start as int, start + n) =~= t@);
    true
}

/// Whether `prefix` begins `s`.
pub fn starts_with(s: &str, prefix: &str) -> (r: bool)
    ensures
        r == has_prefix(s@, prefix@),
{
    let n = s.unicode_len();
    let m = prefix.unicode_len();
    if m > n {
        return false;
    }
    matches_at(s, 0, prefix)
}

/// Whether `needle` stands somewhere in `s`.
pub fn contains(s: &str, needle: &str) -> (r: bool)
    ensures
        r == has_infix(s@, needle@),
{
    let n = s.unicode_len();
    let m = needle.unicode_len();
    if m > n {
        return false;
    }
    let mut k: usize = 0;
    while k <= n - m
        invariant
            n == s@.len(),
            m == needle@.len(),
            m <= n,
            k <= n - m + 1,
            forall|j: int| 0 <= j < k ==> #[trigger] s@.subrange(j, j + m) != needle@,
        decreases n - m + 1 - k,
    {
        if matches_at(s, k, needle) {
            return true;
        }
        if k == n - m {
            return false;
        }
        k = k + 1;
    }
    false
}

} // verus!
