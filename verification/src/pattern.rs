//! Extraction of a product code from a tariff code.
//!
//! A tariff code such as `E-1R-VAR-22-11-01` embeds a product code: the
//! first substring of the shape
//! uppercase-run `-` uppercase-run `-` two digits `-` two digits `-` two digits
//! (here `VAR-22-11-01`). `extract_product_code` returns exactly the first
//! such substring, or nothing when no substring of that shape occurs.

use vstd::prelude::*;

verus! {

/// An uppercase ASCII letter.
pub open spec fn is_upper(c: char) -> bool {
    'A' <= c && c <= 'Z'
}

/// An ASCII decimal digit.
pub open spec fn is_digit(c: char) -> bool {
    '0' <= c && c <= '9'
}

/// Length of the maximal run of uppercase letters starting at position `p`
/// (zero when `p` is out of bounds or `s[p]` is not uppercase).
pub open spec fn run_len(s: Seq<char>, p: int) -> int
    decreases s.len() - p,
{
    if p < 0 || p >= s.len() || !is_upper(s[p]) {
        0
    } else {
        1 + run_len(s, p + 1)
    }
}

/// A product code starts at position `p` of `s`: a nonempty uppercase run,
/// a dash, a nonempty uppercase run, a dash, then two digits, a dash, two
/// digits, a dash, two digits. The runs are maximal, so this holds exactly
/// where a match of the pattern begins.
pub open spec fn matches_at(s: Seq<char>, p: int) -> bool {
    let a = run_len(s, p);
    let q = p + a;
    let b = run_len(s, q + 1);
    let r = q + 1 + b;
    &&& 0 <= p
    &&& a >= 1
    &&& q < s.len()
    &&& s[q] == '-'
    &&& b >= 1
    &&& r + 9 <= s.len()
    &&& s[r] == '-'
    &&& is_digit(s[r + 1])
    &&& is_digit(s[r + 2])
    &&& s[r + 3] == '-'
    &&& is_digit(s[r + 4])
    &&& is_digit(s[r + 5])
    &&& s[r + 6] == '-'
    &&& is_digit(s[r + 7])
    &&& is_digit(s[r + 8])
}

/// Length of the match beginning at `p` (meaningful only when
/// `matches_at(s, p)` holds).
pub open spec fn match_len(s: Seq<char>, p: int) -> int {
    let a = run_len(s, p);
    let b = run_len(s, p + a + 1);
    a + 1 + b + 9
}

/// Position of the first match at or after `p`; `s.len()` when there is none.
pub open spec fn first_match_from(s: Seq<char>, p: int) -> int
    decreases s.len() - p,
{
    if p < 0 || p >= s.len() {
        s.len() as int
    } else if matches_at(s, p) {
        p
    } else {
        first_match_from(s, p + 1)
    }
}

/// Position of the first match in `s`; `s.len()` when there is none.
pub open spec fn first_match_start(s: Seq<char>) -> int {
    first_match_from(s, 0)
}

/// Whether some substring of `s` matches the product-code pattern.
pub open spec fn has_match(s: Seq<char>) -> bool {
    first_match_start(s) < s.len()
}

/// The product code embedded in `s`: the first matching substring, or the
/// empty sequence when no substring matches.
pub open spec fn extracted_product_code(s: Seq<char>) -> Seq<char> {
    if has_match(s) {
        s.subrange(first_match_start(s), first_match_start(s) + match_len(s, first_match_start(s)))
    } else {
        Seq::empty()
    }
}

/// `first_match_from(s, p)` is the least position at or after `p` where a
/// match begins, and equals `s.len()` exactly when no match begins at or
/// after `p`.
pub proof fn lemma_first_match_from(s: Seq<char>, p: int)
    requires
        0 <= p <= s.len(),
    ensures
        p <= first_match_from(s, p) <= s.len(),
        first_match_from(s, p) < s.len() ==> matches_at(s, first_match_from(s, p)),
        forall|q: int| p <= q < first_match_from(s, p) ==> !matches_at(s, q),
        first_match_from(s, p) == s.len() ==> forall|q: int| q >= p ==> !matches_at(s, q),
    decreases s.len() - p,
{
    if p >= s.len() {
        assert forall|q: int| q >= p implies !matches_at(s, q) by {
            lemma_run_len_bounds(s, q);
        }
    } else if matches_at(s, p) {
    } else {
        lemma_first_match_from(s, p + 1);
    }
}

/// The maximal uppercase run at `p` stays inside the sequence.
pub proof fn lemma_run_len_bounds(s: Seq<char>, p: int)
    ensures
        run_len(s, p) >= 0,
        0 <= p <= s.len() ==> p + run_len(s, p) <= s.len(),
        p >= s.len() ==> run_len(s, p) == 0,
    decreases s.len() - p,
{
    if !(p < 0 || p >= s.len() || !is_upper(s[p])) {
        lemma_run_len_bounds(s, p + 1);
    }
}

/// The first matching substring of `s` is at `first_match_start(s)`: a match
/// begins there and at no earlier position, and when `has_match(s)` fails no
/// match begins anywhere. This pins the extractor to the first match.
pub proof fn lemma_first_match(s: Seq<char>)
    ensures
        has_match(s) ==> matches_at(s, first_match_start(s)),
        forall|q: int| 0 <= q < first_match_start(s) ==> !matches_at(s, q),
        !has_match(s) ==> forall|q: int| !matches_at(s, q),
{
    lemma_first_match_from(s, 0);
    if !has_match(s) {
        assert forall|q: int| !matches_at(s, q) by {
            if q >= 0 {
                assert(!matches_at(s, q));
            }
        }
    }
}

/// Whether `c` is an uppercase ASCII letter.
fn upper_char(c: char) -> (b: bool)
    ensures
        b == is_upper(c),
{
    'A' <= c && c <= 'Z'
}

/// Whether `c` is an ASCII decimal digit.
fn digit_char(c: char) -> (b: bool)
    ensures
        b == is_digit(c),
{
    '0' <= c && c <= '9'
}

/// First position at or after `start` that is outside the uppercase run
/// beginning at `start`.
fn upper_run_end(s: &str, start: usize, n: usize) -> (e: usize)
    requires
        n == s@.len(),
        start <= n,
    ensures
        e as int == start as int + run_len(s@, start as int),
        start <= e <= n,
{
    let mut e = start;
    loop
        invariant
            n == s@.len(),
            start <= e <= n,
            run_len(s@, start as int) == e - start + run_len(s@, e as int),
        decreases n - e,
    {
        if e >= n {
            return e;
        }
        let c = s.get_char(e);
        if !upper_char(c) {
            return e;
        }
        e = e + 1;
    }
}

/// Whether a match of the product-code pattern begins at position `p`.
fn match_at(s: &str, p: usize, n: usize) -> (b: bool)
    requires
        n == s@.len(),
        p < n,
    ensures
        b == matches_at(s@, p as int),
{
    let q = upper_run_end(s, p, n);
    if q == p || q >= n {
        proof {
            lemma_run_len_bounds(s@, q as int);
        }
        return false;
    }
    if s.get_char(q) != '-' {
        return false;
    }
    let r = upper_run_end(s, q + 1, n);
    if r == q + 1 {
        return false;
    }
    if n - r < 9 {
        return false;
    }
    if s.get_char(r) != '-' {
        return false;
    }
    let ok = digit_char(s.get_char(r + 1)) && digit_char(s.get_char(r + 2)) && s.get_char(r + 3)
        == '-' && digit_char(s.get_char(r + 4)) && digit_char(s.get_char(r + 5)) && s.get_char(
        r + 6,
    ) == '-' && digit_char(s.get_char(r + 7)) && digit_char(s.get_char(r + 8));
    ok
}

/// Returns the product code embedded in `tariff_code`: the first substring
/// matching the pattern uppercase-run `-` uppercase-run `-` `dd-dd-dd`, or
/// `None` when no substring matches.
pub fn extract_product_code(tariff_code: &str) -> (r: Option<String>)
    ensures
        match r {
            Some(m) => has_match(tariff_code@) && m@ == extracted_product_code(tariff_code@),
            None => !has_match(tariff_code@),
        },
{
    let n = tariff_code.unicode_len();
    let mut p: usize = 0;
    while p < n
        invariant
            n == tariff_code@.len(),
            p <= n,
            forall|q: int| 0 <= q < p ==> !matches_at(tariff_code@, q),
        decreases n - p,
    {
        if match_at(tariff_code, p, n) {
            let q = upper_run_end(tariff_code, p, n);
            let r = upper_run_end(tariff_code, q + 1, n);
            let end = r + 9;
            proof {
                lemma_first_match(tariff_code@);
                lemma_first_match_from(tariff_code@, 0);
                assert(first_match_start(tariff_code@) == p as int);
                assert(end as int == p + match_len(tariff_code@, p as int));
            }
            let m = tariff_code.substring_char(p, end);
            return Some(m.to_owned());
        }
        p = p + 1;
    }
    proof {
        lemma_first_match_from(tariff_code@, 0);
    }
    None
}

} // verus!
