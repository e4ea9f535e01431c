//! Verified text utilities: character-exact string comparison, substring
//! search, and extraction of the last lines of a log.
//!
//! Every function here is pure; its result is pinned to a spec-level
//! statement over the `Seq<char>` views of its arguments.

use vstd::prelude::*;

verus! {

/// `pat` occurs in `text` starting at character index `i`.
pub open spec fn is_match_at(text: Seq<char>, pat: Seq<char>, i: int) -> bool {
    &&& 0 <= i
    &&& i + pat.len() <= text.len()
    &&& text.subrange(i, i + pat.len() as int) == pat
}

/// `pat` occurs somewhere in `text` as a contiguous run of characters.
pub open spec fn contains_seq(text: Seq<char>, pat: Seq<char>) -> bool {
    exists|i: int| is_match_at(text, pat, i)
}

/// Character-by-character equality of two string slices.
pub fn str_eq(a: &str, b: &str) -> (r: bool)
    ensures
        r == (a@ == b@),
{
    let n = a.unicode_len();
    let m = b.unicode_len();
    if n != m {
        assert(a@ != b@) by {
            assert(a@.len() != b@.len());
        }
        return false;
    }
    let mut i: usize = 0;
    while i < n
        invariant
            i <= n,
            n == a@.len(),
            n == b@.len(),
            forall|k: int| 0 <= k < i ==> a@[k] == b@[k],
        decreases n - i,
    {
        if a.get_char(i) != b.get_char(i) {
            return false;
        }
        i += 1;
    }
    assert(a@ =~= b@);
    true
}

/// `pat` matches `text` at position `i`; exact against `is_match_at`.
fn match_at(text: &str, pat: &str, i: usize) -> (r: bool)
    requires
        i + pat@.len() <= text@.len(),
        text@.len() <= usize::MAX,
    ensures
        r == is_match_at(text@, pat@, i as int),
{
    let m = pat.unicode_len();
    let mut j: usize = 0;
    while j < m
        invariant
            j <= m,
            m == pat@.len(),
            i + m <= text@.len(),
            text@.len() <= usize::MAX,
            forall|k: int| 0 <= k < j ==> text@[i + k] == pat@[k],
        decreases m - j,
    {
        if text.get_char(i + j) != pat.get_char(j) {
            assert(!is_match_at(text@, pat@, i as int)) by {
                assert(text@.subrange(i as int, i + m as int)[j as int] == text@[i + j]);
            }
            return false;
        }
        j += 1;
    }
    assert(text@.subrange(i as int, i + m as int) =~= pat@);
    true
}

/// Naive substring search; exact against `contains_seq`.
pub fn contains_str(text: &str, pat: &str) -> (r: bool)
    ensures
        r == contains_seq(text@, pat@),
{
    let n = text.unicode_len();
    let m = pat.unicode_len();
    if m > n {
        assert(!contains_seq(text@, pat@)) by {
            assert(forall|i: int| !is_match_at(text@, pat@, i));
        }
        return false;
    }
    let bound = n - m;
    let mut i: usize = 0;
    loop
        invariant
            m <= n,
            bound == n - m,
            n == text@.len(),
            m == pat@.len(),
            i <= bound,
            forall|k: int| 0 <= k < i ==> !is_match_at(text@, pat@, k),
        decreases bound - i,
    {
        if match_at(text, pat, i) {
            assert(contains_seq(text@, pat@)) by {
                assert(is_match_at(text@, pat@, i as int));
            }
            return true;
        }
        if i == bound {
            assert(!contains_seq(text@, pat@)) by {
                assert(forall|k: int| is_match_at(text@, pat@, k) ==> 0 <= k <= bound);
            }
            return false;
        }
        i += 1;
    }
}

/// Start of the suffix of `s[..end]` that holds `budget + 1` further lines:
/// walking backwards from `end`, each newline consumes one unit of budget,
/// and the newline met with the budget exhausted marks the cut.
pub open spec fn spec_tail_start(s: Seq<char>, end: int, budget: nat) -> int
    decreases end,
{
    if end <= 0 {
        0
    } else if s[end - 1] == '\n' {
        if budget == 0 {
            end
        } else {
            spec_tail_start(s, end - 1, (budget - 1) as nat)
        }
    } else {
        spec_tail_start(s, end - 1, budget)
    }
}

/// Where the backward line scan starts: a single newline at the very end
/// terminates the last line and does not count as an empty line of its own.
pub open spec fn spec_tail_scan_end(s: Seq<char>) -> int {
    if s.len() > 0 && s[s.len() - 1] == '\n' {
        s.len() - 1
    } else {
        s.len() as int
    }
}

/// The suffix of `s` holding its last `n` lines (all of `s` when it has no
/// more than `n`).
pub open spec fn spec_line_tail(s: Seq<char>, n: nat) -> Seq<char>
    recommends
        n >= 1,
{
    s.subrange(spec_tail_start(s, spec_tail_scan_end(s), (n - 1) as nat), s.len() as int)
}

/// The last `n` lines of `s`; exact against `spec_line_tail`.
pub fn line_tail(s: &str, n: usize) -> (r: String)
    requires
        n >= 1,
    ensures
        r@ == spec_line_tail(s@, n as nat),
{
    let len = s.unicode_len();
    let mut end: usize = len;
    if len > 0 && s.get_char(len - 1) == '\n' {
        end = len - 1;
    }
    let mut budget: usize = n - 1;
    while end > 0
        invariant
            n >= 1,
            end <= s@.len(),
            len == s@.len(),
            spec_tail_start(s@, spec_tail_scan_end(s@), (n - 1) as nat) == spec_tail_start(
                s@,
                end as int,
                budget as nat,
            ),
        decreases end,
    {
        if s.get_char(end - 1) == '\n' {
            if budget == 0 {
                assert(spec_tail_start(s@, end as int, budget as nat) == end as int);
                return s.substring_char(end, len).to_owned();
            }
            budget -= 1;
        }
        end -= 1;
    }
    assert(spec_tail_start(s@, end as int, budget as nat) == 0);
    s.substring_char(0, len).to_owned()
}

} // verus!
