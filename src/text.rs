//! Plain operations on character sequences that the link and icon rules use.

use vstd::prelude::*;
use vstd::string::*;

verus! {

/// `t` occurs in `s` starting at character position `i`.
pub open spec fn occurs_at(s: Seq<char>, t: Seq<char>, i: int) -> bool {
    0 <= i && i + t.len() <= s.len() && s.subrange(i, i + t.len()) == t
}

/// `t` occurs somewhere in `s` as a contiguous run of characters.
pub open spec fn contains(s: Seq<char>, t: Seq<char>) -> bool {
    exists|i: int| #[trigger] occurs_at(s, t, i)
}

fn matches_at(s: &str, t: &str, i: usize) -> (r: bool)
    requires
        i + t@.len() <= s@.len(),
    ensures
        r == occurs_at(s@, t@, i as int),
{
    let n = s.unicode_len();
    let m = t.unicode_len();
    let mut j: usize = 0;
    while j < m
        invariant
            n == s@.len(),
            m == t@.len(),
            i + m <= s@.len(),
            j <= m,
            forall|k: int| 0 <= k < j ==> s@[i + k] == t@[k],
        decreases m - j,
    {
        if s.get_char(i + j) != t.get_char(j) {
            assert(s@.subrange(i as int, i + m)[j as int] != t@[j as int]);
            return false;
        }
        j += 1;
    }
    assert(s@.subrange(i as int, i + m) =~= t@);
    true
}

/// Whether `t` occurs in `s`.
pub fn str_contains(s: &str, t: &str) -> (r: bool)
    ensures
        r == contains(s@, t@),
{
    let n = s.unicode_len();
    let m = t.unicode_len();
    if m > n {
        assert forall|k: int| !#[trigger] occurs_at(s@, t@, k) by {}
        return false;
    }
    let mut i: usize = 0;
    loop
        invariant
            n == s@.len(),
            m == t@.len(),
            m <= n,
            i <= n - m,
            forall|k: int| 0 <= k < i ==> !#[trigger] occurs_at(s@, t@, k),
        decreases n - m - i,
    {
        if matches_at(s, t, i) {
            return true;
        }
        if i == n - m {
            assert forall|k: int| !#[trigger] occurs_at(s@, t@, k) by {}
            return false;
        }
        i += 1;
    }
}

/// The characters of `s` after its last `c`; all of `s` where `c` does not occur.
pub open spec fn after_last(s: Seq<char>, c: char) -> Seq<char>
    decreases s.len(),
{
    if s.len() == 0 {
        s
    } else if s.last() == c {
        Seq::empty()
    } else {
        after_last(s.drop_last(), c).push(s.last())
    }
}

proof fn lemma_after_last(s: Seq<char>, c: char, i: int)
    requires
        0 <= i <= s.len(),
        forall|j: int| i <= j < s.len() ==> s[j] != c,
        i == 0 || s[i - 1] == c,
    ensures
        after_last(s, c) =~= s.subrange(i, s.len() as int),
    decreases s.len(),
{
    if s.len() > i {
        lemma_after_last(s.drop_last(), c, i);
    }
}

/// The file extension of a URL as the icon record keeps it: a dot followed by
/// whatever comes after the URL's last dot.
pub fn extension_of(url: &str) -> (r: String)
    ensures
        r@ == seq!['.'] + after_last(url@, '.'),
{
    let n = url.unicode_len();
    let mut i: usize = n;
    while i > 0 && url.get_char(i - 1) != '.'
        invariant
            n == url@.len(),
            i <= n,
            forall|j: int| i <= j < n ==> url@[j] != '.',
        decreases i,
    {
        i -= 1;
    }
    proof {
        lemma_after_last(url@, '.', i as int);
    }
    let mut r = String::from_str(".");
    r.append(url.substring_char(i, n));
    proof {
        reveal_strlit(".");
    }
    assert(r@ =~= seq!['.'] + after_last(url@, '.'));
    r
}

} // verus!
