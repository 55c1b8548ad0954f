//! Character-level text utilities: substring search (exact and
//! ASCII-case-insensitive) and trimming of surrounding quote characters.

use vstd::prelude::*;
use vstd::string::StrSliceExecFns;

verus! {

/// Whether character `a` of the text matches character `b` of the pattern.
/// With `fold` set, ASCII letters match their other-case counterpart as well.
pub open spec fn char_matches(a: char, b: char, fold: bool) -> bool {
    a == b || (fold && 97 <= a as int <= 122 && b as int == a as int - 32) || (fold && 65 <= a
        as int <= 90 && b as int == a as int + 32)
}

/// The pattern `pat` occurs in `text` starting at position `i`.
pub open spec fn match_at(text: Seq<char>, pat: Seq<char>, i: int, fold: bool) -> bool {
    0 <= i && i + pat.len() <= text.len() && (forall|k: int|
        0 <= k < pat.len() ==> char_matches(#[trigger] text[i + k], pat[k], fold))
}

/// The pattern `pat` occurs somewhere in `text`.
pub open spec fn contains_sub(text: Seq<char>, pat: Seq<char>, fold: bool) -> bool {
    exists|i: int| match_at(text, pat, i, fold)
}

/// Exact (case-sensitive) substring containment.
pub open spec fn contains_cs(text: Seq<char>, pat: Seq<char>) -> bool {
    contains_sub(text, pat, false)
}

/// ASCII-case-insensitive substring containment.
pub open spec fn contains_ci(text: Seq<char>, pat: Seq<char>) -> bool {
    contains_sub(text, pat, true)
}

fn char_matches_exec(a: char, b: char, fold: bool) -> (r: bool)
    ensures
        r == char_matches(a, b, fold),
{
    if a == b {
        true
    } else if fold {
        let au = a as u32;
        let bu = b as u32;
        (97 <= au && au <= 122 && bu + 32 == au) || (65 <= au && au <= 90 && bu == au + 32)
    } else {
        false
    }
}

fn matches_at_exec(text: &str, pat: &str, i: usize, n: usize, m: usize, fold: bool) -> (r: bool)
    requires
        n == text@.len(),
        m == pat@.len(),
        i + m <= n,
    ensures
        r == match_at(text@, pat@, i as int, fold),
{
    let mut k: usize = 0;
    while k < m
        invariant
            n == text@.len(),
            m == pat@.len(),
            i + m <= n,
            k <= m,
            forall|t: int| 0 <= t < k ==> char_matches(#[trigger] text@[i + t], pat@[t], fold),
        decreases m - k,
    {
        if !char_matches_exec(text.get_char(i + k), pat.get_char(k), fold) {
            assert(!char_matches(text@[i + k as int], pat@[k as int], fold));
            return false;
        }
        k = k + 1;
    }
    true
}

/// Scan `text` for an occurrence of `pat`, exact or ASCII-case-folded.
fn contains_sub_exec(text: &str, pat: &str, fold: bool) -> (r: bool)
    ensures
        r == contains_sub(text@, pat@, fold),
{
    let n = text.unicode_len();
    let m = pat.unicode_len();
    if m > n {
        assert(forall|i: int| !match_at(text@, pat@, i, fold));
        return false;
    }
    let mut i: usize = 0;
    while i <= n - m
        invariant
            n == text@.len(),
            m == pat@.len(),
            m <= n,
            i <= n - m + 1,
            forall|j: int| 0 <= j < i ==> !match_at(text@, pat@, j, fold),
        decreases n - m - i + 1,
    {
        if matches_at_exec(text, pat, i, n, m, fold) {
            return true;
        }
        i = i + 1;
    }
    assert(forall|j: int| !match_at(text@, pat@, j, fold));
    false
}

/// Exact substring search.
pub fn contains_str(text: &str, pat: &str) -> (r: bool)
    ensures
        r == contains_cs(text@, pat@),
{
    contains_sub_exec(text, pat, false)
}

/// ASCII-case-insensitive substring search.
pub fn contains_str_ci(text: &str, pat: &str) -> (r: bool)
    ensures
        r == contains_ci(text@, pat@),
{
    contains_sub_exec(text, pat, true)
}

/// The text with every leading and trailing `"` removed.
pub open spec fn trim_quotes_spec(s: Seq<char>) -> Seq<char>
    decreases s.len(),
{
    if s.len() > 0 && s.first() == '"' {
        trim_quotes_spec(s.drop_first())
    } else if s.len() > 0 && s.last() == '"' {
        trim_quotes_spec(s.drop_last())
    } else {
        s
    }
}

/// Remove all leading and trailing `"` characters.
pub fn trim_quotes(s: &str) -> (r: String)
    ensures
        r@ == trim_quotes_spec(s@),
    decreases s@.len(),
{
    let n = s.unicode_len();
    if n > 0 && s.get_char(0) == '"' {
        let rest = s.substring_char(1, n);
        assert(rest@ =~= s@.drop_first());
        trim_quotes(rest)
    } else if n > 0 && s.get_char(n - 1) == '"' {
        let rest = s.substring_char(0, n - 1);
        assert(rest@ =~= s@.drop_last());
        trim_quotes(rest)
    } else {
        s.to_owned()
    }
}

} // verus!
