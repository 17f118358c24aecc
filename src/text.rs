//! Small facts about character sequences shared by the other modules.
use vstd::prelude::*;
use vstd::string::*;

verus! {

/// `w` occurs in `t` starting at position `i`.
pub open spec fn occurs_at(t: Seq<char>, w: Seq<char>, i: int) -> bool {
    0 <= i && i + w.len() <= t.len() && t.subrange(i, i + w.len()) == w
}

/// The characters of an optional string.
pub open spec fn opt_view(o: Option<&str>) -> Option<Seq<char>> {
    match o {
        Some(s) => Some(s@),
        None => None,
    }
}

/// `w` occurs somewhere in `t`.
pub open spec fn contains(t: Seq<char>, w: Seq<char>) -> bool {
    exists|i: int| occurs_at(t, w, i)
}

/// Tells whether `w` occurs in `t` at position `i`.
pub fn occurs_at_exec(t: &str, w: &[char], i: usize) -> (r: bool)
    ensures
        r == occurs_at(t@, w@, i as int),
{
    let n = t.unicode_len();
    if w.len() > n || i > n - w.len() {
        return false;
    }
    let mut j: usize = 0;
    while j < w.len()
        invariant
            i + w@.len() <= t@.len(),
            n == t@.len(),
            j <= w@.len(),
            forall|k: int| 0 <= k < j ==> t@[i + k] == w@[k],
        decreases w@.len() - j,
    {
        if t.get_char(i + j) != w[j] {
            assert(t@.subrange(i as int, i + w@.len())[j as int] != w@[j as int]);
            return false;
        }
        j = j + 1;
    }
    assert(t@.subrange(i as int, i + w@.len()) =~= w@);
    true
}

/// Tells whether `w` occurs anywhere in `t`.
pub fn contains_exec(t: &str, w: &[char]) -> (r: bool)
    ensures
        r == contains(t@, w@),
{
    let n = t.unicode_len();
    let mut i: usize = 0;
    while i < n
        invariant
            n == t@.len(),
            i <= n,
            forall|k: int| 0 <= k < i ==> !occurs_at(t@, w@, k),
        decreases n - i,
    {
        if occurs_at_exec(t, w, i) {
            return true;
        }
        i = i + 1;
    }
    if occurs_at_exec(t, w, n) {
        return true;
    }
    assert forall|k: int| !occurs_at(t@, w@, k) by {
        if 0 <= k && k < n {
        }
    }
    false
}

/// The string whose characters are `s`.
pub fn string_of(s: &str) -> (r: String)
    ensures
        r@ == s@,
{
    String::from_str(s)
}

} // verus!
