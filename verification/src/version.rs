//! Extraction of the major version number: the segment of the version
//! string before the first `.`, read as a decimal `u32`, with 0 for every
//! malformed or missing value.

use vstd::prelude::*;
use vstd::string::*;

verus! {

/// An ASCII decimal digit.
pub open spec fn is_dec_digit(c: char) -> bool {
    48 <= c as u32 <= 57
}

/// Numeric value of one decimal digit.
pub open spec fn digit_val(c: char) -> int {
    c as u32 - 48
}

/// Every character of `s` is a decimal digit.
pub open spec fn all_dec_digits(s: Seq<char>) -> bool {
    forall|i: int| 0 <= i < s.len() ==> is_dec_digit(#[trigger] s[i])
}

/// The value of a digit string read in base ten.
pub open spec fn dec_val(s: Seq<char>) -> int
    decreases s.len(),
{
    if s.len() == 0 {
        0
    } else {
        10 * dec_val(s.drop_last()) + digit_val(s.last())
    }
}

/// The value `str::parse::<u32>` would give `s`: an optional leading `+`,
/// then at least one decimal digit, and a value that fits in a `u32`;
/// anything else fails.
pub open spec fn parse_u32_of(s: Seq<char>) -> Option<u32> {
    let digits = if s.len() > 0 && s[0] == '+' {
        s.drop_first()
    } else {
        s
    };
    if digits.len() > 0 && all_dec_digits(digits) && dec_val(digits) <= u32::MAX {
        Some(dec_val(digits) as u32)
    } else {
        None
    }
}

/// Index of the first occurrence of `c` in `s`, or `s.len()` if absent.
pub open spec fn char_index(s: Seq<char>, c: char) -> int
    decreases s.len(),
{
    if s.len() == 0 {
        0
    } else if s[0] == c {
        0
    } else {
        1 + char_index(s.drop_first(), c)
    }
}

/// The segment of `v` before its first `.` (all of `v` if it has none).
pub open spec fn dot_prefix(v: Seq<char>) -> Seq<char> {
    v.take(char_index(v, '.'))
}

/// The major version encoded by a dotted version string: the first
/// `.`-separated segment as a `u32`, or 0 when that segment does not parse.
pub open spec fn version_major_of(v: Seq<char>) -> u32 {
    match parse_u32_of(dot_prefix(v)) {
        Some(n) => n,
        None => 0,
    }
}

/// `char_index` agrees with any position `i` that a left-to-right scan
/// finds: no occurrence before `i`, and either `i` is the end or an
/// occurrence.
pub proof fn lemma_char_index_agrees(s: Seq<char>, c: char, i: int)
    requires
        0 <= i <= s.len(),
        forall|j: int| 0 <= j < i ==> s[j] != c,
        i == s.len() || s[i] == c,
    ensures
        char_index(s, c) == i,
    decreases s.len(),
{
    if s.len() == 0 {
    } else if s[0] == c {
    } else {
        assert(forall|j: int| 0 <= j < i - 1 ==> s.drop_first()[j] == s[j + 1]);
        lemma_char_index_agrees(s.drop_first(), c, i - 1);
    }
}

/// A digit string's value is non-negative.
pub proof fn lemma_dec_val_nonneg(s: Seq<char>)
    requires
        all_dec_digits(s),
    ensures
        dec_val(s) >= 0,
    decreases s.len(),
{
    if s.len() > 0 {
        assert(forall|j: int| 0 <= j < s.len() - 1 ==> s.drop_last()[j] == s[j]);
        lemma_dec_val_nonneg(s.drop_last());
    }
}

/// Reading more digits never shrinks the value: the value of a prefix is a
/// lower bound on the value of the whole digit string.
pub proof fn lemma_dec_val_take_le(s: Seq<char>, k: int)
    requires
        0 <= k <= s.len(),
        all_dec_digits(s),
    ensures
        dec_val(s.take(k)) <= dec_val(s),
    decreases s.len() - k,
{
    if k == s.len() {
        assert(s.take(k) =~= s);
    } else {
        assert(s.take(k + 1).drop_last() =~= s.take(k));
        assert(s.take(k + 1).last() == s[k]);
        assert(forall|j: int| 0 <= j < k ==> s.take(k)[j] == s[j]);
        lemma_dec_val_nonneg(s.take(k));
        lemma_dec_val_take_le(s, k + 1);
    }
}

/// Version fallback: whenever the segment of a version string before its
/// first `.` is missing or does not read as a `u32` — empty, non-numeric,
/// or too large — the extracted major version is 0, never anything else.
pub proof fn lemma_version_fallback(v: Seq<char>)
    requires
        parse_u32_of(dot_prefix(v)) is None,
    ensures
        version_major_of(v) == 0,
{
}

/// Position of the first occurrence of `c` in `s`, or the character length
/// of `s` if `c` does not occur.
pub fn find_first(s: &str, c: char) -> (i: usize)
    ensures
        i == char_index(s@, c),
        i <= s@.len(),
{
    let n = s.unicode_len();
    let mut i: usize = 0;
    while i < n
        invariant
            i <= n,
            n == s@.len(),
            forall|j: int| 0 <= j < i ==> s@[j] != c,
        decreases n - i,
    {
        if s.get_char(i) == c {
            proof {
                lemma_char_index_agrees(s@, c, i as int);
            }
            return i;
        }
        i = i + 1;
    }
    proof {
        lemma_char_index_agrees(s@, c, n as int);
    }
    n
}

/// The value `parse_u32_of` assigns to `s`, with 0 for a failed parse.
pub open spec fn parse_or_zero(s: Seq<char>) -> u32 {
    match parse_u32_of(s) {
        Some(n) => n,
        None => 0,
    }
}

/// Read `s` as a decimal `u32` the way `str::parse` would, returning 0 on
/// any failure: empty input, a non-digit, or overflow.
pub fn parse_u32_or_zero(s: &str) -> (n: u32)
    ensures
        n == parse_or_zero(s@),
{
    let len = s.unicode_len();
    let mut start: usize = 0;
    if len > 0 && s.get_char(0) == '+' {
        start = 1;
    }
    proof {
        if start == 1 {
            assert(s@.skip(1) =~= s@.drop_first());
        } else {
            assert(s@.skip(0) =~= s@);
        }
    }
    if start == len {
        return 0;
    }
    let mut acc: u64 = 0;
    let mut i: usize = start;
    while i < len
        invariant
            start <= i <= len,
            len == s@.len(),
            (s@.len() > 0 && s@[0] == '+') ==> start == 1,
            !(s@.len() > 0 && s@[0] == '+') ==> start == 0,
            forall|j: int| start <= j < i ==> is_dec_digit(#[trigger] s@[j]),
            acc == dec_val(s@.subrange(start as int, i as int)),
            acc <= u32::MAX,
        decreases len - i,
    {
        let c = s.get_char(i);
        let cv = c as u32;
        if cv < 48 || cv > 57 {
            proof {
                if start == 1 {
                    assert(s@.skip(1) =~= s@.drop_first());
                } else {
                    assert(s@.skip(0) =~= s@);
                }
                assert(s@.skip(start as int)[i - start] == s@[i as int]);
                assert(!all_dec_digits(s@.skip(start as int)));
            }
            return 0;
        }
        let d = (cv - 48) as u64;
        proof {
            assert(s@.subrange(start as int, i + 1).drop_last() =~= s@.subrange(
                start as int,
                i as int,
            ));
            assert(s@.subrange(start as int, i + 1).last() == s@[i as int]);
        }
        let new_acc = acc * 10 + d;
        if new_acc > 0xffff_ffff {
            proof {
                if start == 1 {
                    assert(s@.skip(1) =~= s@.drop_first());
                } else {
                    assert(s@.skip(0) =~= s@);
                }
                if all_dec_digits(s@.skip(start as int)) {
                    assert(s@.skip(start as int).take(i + 1 - start) =~= s@.subrange(
                        start as int,
                        i + 1,
                    ));
                    lemma_dec_val_take_le(s@.skip(start as int), i + 1 - start);
                }
            }
            return 0;
        }
        acc = new_acc;
        i = i + 1;
    }
    proof {
        assert forall|j: int| 0 <= j < s@.skip(start as int).len() implies is_dec_digit(
            s@.skip(start as int)[j],
        ) by {
            assert(s@.skip(start as int)[j] == s@[start + j]);
        }
        assert(all_dec_digits(s@.skip(start as int)));
        assert(s@.subrange(start as int, i as int) =~= s@.skip(start as int));
    }
    acc as u32
}

/// Major version of a dotted version string; 0 when the first segment is
/// missing, non-numeric, or too large.
pub fn version_major(v: &str) -> (n: u32)
    ensures
        n == version_major_of(v@),
{
    let idx = find_first(v, '.');
    let seg = v.substring_char(0, idx);
    parse_u32_or_zero(seg)
}

} // verus!
