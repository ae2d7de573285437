//! Verified string utilities: prefix, suffix and substring tests, and
//! ASCII-case-insensitive suffix comparison.

use vstd::prelude::*;

verus! {

/// Whether `s` begins with `prefix`.
pub open spec fn starts_with_spec(s: Seq<char>, prefix: Seq<char>) -> bool {
    s.len() >= prefix.len() && s.take(prefix.len() as int) == prefix
}

/// Whether `s` ends with `suffix`.
pub open spec fn ends_with_spec(s: Seq<char>, suffix: Seq<char>) -> bool {
    s.len() >= suffix.len() && s.skip(s.len() - suffix.len()) == suffix
}

/// Whether `sub` occurs contiguously anywhere in `s`.
pub open spec fn contains_spec(s: Seq<char>, sub: Seq<char>) -> bool {
    exists|k: int| 0 <= k <= s.len() - sub.len() && #[trigger] s.subrange(k, k + sub.len()) == sub
}

/// The character's code point, with an ASCII capital letter folded to its
/// small counterpart.
pub open spec fn ascii_lower_val(c: char) -> int {
    if 'A' <= c && c <= 'Z' {
        c as int + 32
    } else {
        c as int
    }
}

/// Whether `s` ends with `suffix` up to ASCII letter case.
pub open spec fn ends_with_ignore_ascii_case_spec(s: Seq<char>, suffix: Seq<char>) -> bool {
    s.len() >= suffix.len() && (forall|j: int|
        0 <= j < suffix.len() ==> ascii_lower_val(#[trigger] suffix[j]) == ascii_lower_val(
            s[s.len() - suffix.len() + j],
        ))
}

/// Test whether two strings hold the same characters.
pub fn str_eq(a: &str, b: &str) -> (r: bool)
    ensures
        r == (a@ == b@),
{
    let an = a.unicode_len();
    let bn = b.unicode_len();
    if an != bn {
        proof {
            assert(a@.len() != b@.len());
        }
        return false;
    }
    let mut i: usize = 0;
    while i < an
        invariant
            0 <= i <= an,
            an == a@.len() == b@.len(),
            forall|j: int| 0 <= j < i ==> a@[j] == b@[j],
        decreases an - i,
    {
        if a.get_char(i) != b.get_char(i) {
            return false;
        }
        i = i + 1;
    }
    proof {
        assert(a@ =~= b@);
    }
    true
}

/// Test whether `s` begins with `prefix`.
pub fn str_starts_with(s: &str, prefix: &str) -> (r: bool)
    ensures
        r == starts_with_spec(s@, prefix@),
{
    let n = s.unicode_len();
    let m = prefix.unicode_len();
    if n < m {
        return false;
    }
    let mut j: usize = 0;
    while j < m
        invariant
            0 <= j <= m,
            m <= n,
            n == s@.len(),
            m == prefix@.len(),
            forall|k: int| 0 <= k < j ==> s@[k] == prefix@[k],
        decreases m - j,
    {
        if s.get_char(j) != prefix.get_char(j) {
            proof {
                assert(s@.take(m as int)[j as int] != prefix@[j as int]);
            }
            return false;
        }
        j = j + 1;
    }
    proof {
        assert(s@.take(m as int) =~= prefix@);
    }
    true
}

/// Test whether `s` ends with `suffix`.
pub fn str_ends_with(s: &str, suffix: &str) -> (r: bool)
    ensures
        r == ends_with_spec(s@, suffix@),
{
    let n = s.unicode_len();
    let m = suffix.unicode_len();
    if n < m {
        return false;
    }
    let off = n - m;
    let mut j: usize = 0;
    while j < m
        invariant
            0 <= j <= m,
            off == n - m,
            m <= n,
            n == s@.len(),
            m == suffix@.len(),
            forall|k: int| 0 <= k < j ==> s@[off + k] == suffix@[k],
        decreases m - j,
    {
        if s.get_char(off + j) != suffix.get_char(j) {
            proof {
                assert(s@.skip(off as int)[j as int] != suffix@[j as int]);
            }
            return false;
        }
        j = j + 1;
    }
    proof {
        assert(s@.skip(off as int) =~= suffix@);
    }
    true
}

/// Test whether `s` ends with `suffix`, folding ASCII capitals.
pub fn str_ends_with_ignore_ascii_case(s: &str, suffix: &str) -> (r: bool)
    ensures
        r == ends_with_ignore_ascii_case_spec(s@, suffix@),
{
    let n = s.unicode_len();
    let m = suffix.unicode_len();
    if n < m {
        return false;
    }
    let off = n - m;
    let mut j: usize = 0;
    while j < m
        invariant
            0 <= j <= m,
            off == n - m,
            m <= n,
            n == s@.len(),
            m == suffix@.len(),
            forall|k: int|
                0 <= k < j ==> ascii_lower_val(#[trigger] suffix@[k]) == ascii_lower_val(
                    s@[off + k],
                ),
        decreases m - j,
    {
        let a = s.get_char(off + j);
        let b = suffix.get_char(j);
        let av: u32 = if 'A' <= a && a <= 'Z' {
            a as u32 + 32
        } else {
            a as u32
        };
        let bv: u32 = if 'A' <= b && b <= 'Z' {
            b as u32 + 32
        } else {
            b as u32
        };
        if av != bv {
            return false;
        }
        j = j + 1;
    }
    true
}

/// Test whether `sub` occurs contiguously anywhere in `s`.
pub fn str_contains(s: &str, sub: &str) -> (r: bool)
    ensures
        r == contains_spec(s@, sub@),
{
    let n = s.unicode_len();
    let m = sub.unicode_len();
    if m > n {
        return false;
    }
    if m == 0 {
        proof {
            assert(s@.subrange(0, 0 + sub@.len() as int) =~= sub@);
        }
        return true;
    }
    let mut k: usize = 0;
    while k <= n - m
        invariant
            0 <= k <= n - m + 1,
            1 <= m <= n,
            n == s@.len(),
            m == sub@.len(),
            forall|k2: int| 0 <= k2 < k ==> #[trigger] s@.subrange(k2, k2 + m as int) != sub@,
        decreases n - m + 1 - k,
    {
        let mut j: usize = 0;
        let mut matched = true;
        while matched && j < m
            invariant
                0 <= j <= m,
                0 <= k <= n - m,
                1 <= m <= n,
                n == s@.len(),
                m == sub@.len(),
                matched ==> forall|k3: int| 0 <= k3 < j ==> s@[k as int + k3] == sub@[k3],
                !matched ==> s@.subrange(k as int, k as int + m as int) != sub@,
            decreases m - j, (if matched { 1int } else { 0int }),
        {
            if s.get_char(k + j) != sub.get_char(j) {
                matched = false;
                proof {
                    assert(s@.subrange(k as int, k as int + m as int)[j as int] != sub@[j as int]);
                }
            } else {
                j = j + 1;
            }
        }
        if matched {
            proof {
                assert(s@.subrange(k as int, k as int + m as int) =~= sub@);
            }
            return true;
        }
        k = k + 1;
    }
    false
}

} // verus!
