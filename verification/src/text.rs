//! Verified character-level string operations, and the one trusted
//! lower-casing primitive the correction rules need.

use vstd::prelude::*;
use vstd::string::*;

verus! {

/// `sub` occurs contiguously somewhere in `s`.
pub open spec fn has_substring(s: Seq<char>, sub: Seq<char>) -> bool {
    exists|i: int|
        0 <= i && i + sub.len() <= s.len() && #[trigger] s.subrange(i, i + sub.len() as int)
            == sub
}

/// The full Unicode lower-case mapping of a character sequence, as
/// `str::to_lowercase` computes it.
pub uninterp spec fn lower_of(s: Seq<char>) -> Seq<char>;

/// Relies on `str::to_lowercase`: its result is locale-independent and
/// depends on the characters of `s` alone, so it is given a name rather
/// than spelled out.
#[verifier::external_body]
pub(crate) fn lowercase(s: &str) -> (r: String)
    ensures
        r@ == lower_of(s@),
{
    s.to_lowercase()
}

/// Character-for-character equality of two string slices.
pub fn str_eq(a: &str, b: &str) -> (r: bool)
    ensures
        r == (a@ == b@),
{
    let a_len = a.unicode_len();
    let b_len = b.unicode_len();
    if a_len != b_len {
        return false;
    }
    let mut i: usize = 0;
    while i < a_len
        invariant
            i <= a_len,
            a_len == a@.len(),
            b_len == b@.len(),
            a_len == b_len,
            forall|j: int| 0 <= j < i ==> a@[j] == b@[j],
        decreases a_len - i,
    {
        if a.get_char(i) != b.get_char(i) {
            return false;
        }
        i = i + 1;
    }
    proof {
        assert(a@ =~= b@);
    }
    true
}

/// Whether `prefix` is a prefix of `s`.
pub fn str_starts_with(s: &str, prefix: &str) -> (r: bool)
    ensures
        r == prefix@.is_prefix_of(s@),
{
    let n = s.unicode_len();
    let m = prefix.unicode_len();
    if m > n {
        return false;
    }
    let mut i: usize = 0;
    while i < m
        invariant
            i <= m,
            m <= n,
            n == s@.len(),
            m == prefix@.len(),
            forall|j: int| 0 <= j < i ==> s@[j] == prefix@[j],
        decreases m - i,
    {
        if s.get_char(i) != prefix.get_char(i) {
            proof {
                assert(s@.subrange(0, m as int)[i as int] == s@[i as int]);
            }
            return false;
        }
        i = i + 1;
    }
    proof {
        assert(prefix@ =~= s@.subrange(0, m as int));
    }
    true
}

/// Whether `sub` occurs contiguously anywhere in `s`.
pub fn str_contains(s: &str, sub: &str) -> (r: bool)
    ensures
        r == has_substring(s@, sub@),
{
    let n = s.unicode_len();
    let m = sub.unicode_len();
    if m > n {
        return false;
    }
    if m == 0 {
        proof {
            assert(s@.subrange(0, 0 + sub@.len() as int) =~= sub@);
            assert(has_substring(s@, sub@));
        }
        return true;
    }
    let mut i: usize = 0;
    while i <= n - m
        invariant
            1 <= m <= n,
            n == s@.len(),
            m == sub@.len(),
            i <= n - m + 1,
            forall|k: int|
                0 <= k < i ==> #[trigger] s@.subrange(k, k + sub@.len() as int) != sub@,
        decreases n - i,
    {
        let mut j: usize = 0;
        let mut mismatch = false;
        while j < m
            invariant
                j <= m,
                i + m <= n,
                n == s@.len(),
                m == sub@.len(),
                !mismatch ==> forall|t: int| 0 <= t < j ==> s@[i + t] == sub@[t],
                mismatch ==> s@.subrange(i as int, i + sub@.len() as int) != sub@,
            decreases m - j,
        {
            if s.get_char(i + j) != sub.get_char(j) {
                proof {
                    assert(s@.subrange(i as int, i + sub@.len() as int)[j as int] == s@[
                        i + j as int
                    ]);
                }
                mismatch = true;
                j = m;
            } else {
                j = j + 1;
            }
        }
        if !mismatch {
            proof {
                assert(s@.subrange(i as int, i + sub@.len() as int) =~= sub@);
            }
            return true;
        }
        i = i + 1;
    }
    false
}

} // verus!
