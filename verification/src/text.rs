//! Character-level text scanning primitives shared by the splitter, the
//! rewriter passes and the template renderer: substring occurrence tests,
//! first-occurrence search, and literal replacement.

use vstd::prelude::*;

verus! {

/// The pattern `pat` occurs in `s` starting at index `i`.
pub open spec fn occurs_at(s: Seq<char>, i: int, pat: Seq<char>) -> bool {
    0 <= i && i + pat.len() <= s.len() && s.subrange(i, i + pat.len()) == pat
}

/// Index of the first occurrence of `pat` in `s` at or after `from`,
/// or -1 when there is none.
pub open spec fn find_from(s: Seq<char>, pat: Seq<char>, from: int) -> int
    decreases s.len() - from,
{
    if from < 0 || from + pat.len() > s.len() {
        -1
    } else if occurs_at(s, from, pat) {
        from
    } else if from + 1 + pat.len() > s.len() {
        -1
    } else {
        find_from(s, pat, from + 1)
    }
}

/// Index of the first occurrence of the character `c` in `s` at or after
/// `from`, or -1 when there is none.
pub open spec fn find_char_from(s: Seq<char>, c: char, from: int) -> int
    decreases s.len() - from,
{
    if from < 0 || from >= s.len() {
        -1
    } else if s[from] == c {
        from
    } else {
        find_char_from(s, c, from + 1)
    }
}

pub proof fn lemma_find_from_bounds(s: Seq<char>, pat: Seq<char>, from: int)
    requires
        from >= 0,
    ensures
        find_from(s, pat, from) == -1 || (from <= find_from(s, pat, from)
            && find_from(s, pat, from) + pat.len() <= s.len()
            && occurs_at(s, find_from(s, pat, from), pat)),
    decreases s.len() - from,
{
    if from + pat.len() > s.len() {
    } else if occurs_at(s, from, pat) {
    } else if from + 1 + pat.len() > s.len() {
    } else {
        lemma_find_from_bounds(s, pat, from + 1);
    }
}

pub proof fn lemma_find_char_from_bounds(s: Seq<char>, c: char, from: int)
    requires
        from >= 0,
    ensures
        find_char_from(s, c, from) == -1 || (from <= find_char_from(s, c, from)
            && find_char_from(s, c, from) < s.len()
            && s[find_char_from(s, c, from)] == c),
    decreases s.len() - from,
{
    if from >= s.len() {
    } else if s[from] == c {
    } else {
        lemma_find_char_from_bounds(s, c, from + 1);
    }
}

pub proof fn lemma_find_from_exact(s: Seq<char>, pat: Seq<char>, from: int, j: int)
    requires
        0 <= from <= j,
        occurs_at(s, j, pat),
        forall|k: int| from <= k < j ==> !occurs_at(s, k, pat),
    ensures
        find_from(s, pat, from) == j,
    decreases j - from,
{
    if from < j {
        lemma_find_from_exact(s, pat, from + 1, j);
    }
}

/// Whether `pat` occurs at position `i` of `s`.
pub fn matches_at(s: &str, i: usize, pat: &str) -> (r: bool)
    ensures
        r == occurs_at(s@, i as int, pat@),
{
    let n = s.unicode_len();
    let m = pat.unicode_len();
    if i > n || n - i < m {
        return false;
    }
    let mut k: usize = 0;
    while k < m
        invariant
            0 <= k <= m,
            m == pat@.len(),
            n == s@.len(),
            i + m <= n,
            forall|q: int| 0 <= q < k ==> s@[i + q] == pat@[q],
        decreases m - k,
    {
        if s.get_char(i + k) != pat.get_char(k) {
            assert(s@.subrange(i as int, i + m) != pat@) by {
                assert(s@.subrange(i as int, i + m)[k as int] != pat@[k as int]);
            }
            return false;
        }
        k += 1;
    }
    assert(s@.subrange(i as int, i + m) =~= pat@);
    true
}

/// First occurrence of `pat` in `s` at or after `from`, as `find_from` gives it.
pub fn find_sub(s: &str, pat: &str, from: usize) -> (r: Option<usize>)
    ensures
        match r {
            Some(j) => find_from(s@, pat@, from as int) == j as int,
            None => find_from(s@, pat@, from as int) == -1,
        },
{
    let n = s.unicode_len();
    let m = pat.unicode_len();
    if from > n || n - from < m {
        assert(find_from(s@, pat@, from as int) == -1);
        return None;
    }
    if m == 0 {
        assert(s@.subrange(from as int, from as int) =~= pat@);
        return Some(from);
    }
    let mut i: usize = from;
    while i <= n - m
        invariant
            from <= i,
            0 < m <= n,
            i <= n - m + 1,
            m == pat@.len(),
            n == s@.len(),
            find_from(s@, pat@, from as int) == find_from(s@, pat@, i as int),
        decreases n - i,
    {
        if matches_at(s, i, pat) {
            return Some(i);
        }
        i += 1;
    }
    assert(find_from(s@, pat@, i as int) == -1);
    None
}

/// `s` from position `i` on, with each occurrence of `pat` replaced by
/// `repl`, leftmost first and without overlap.
pub open spec fn replace_from(s: Seq<char>, pat: Seq<char>, repl: Seq<char>, i: int) -> Seq<char>
    decreases s.len() - i,
{
    if i < 0 || i >= s.len() {
        Seq::<char>::empty()
    } else if pat.len() > 0 && occurs_at(s, i, pat) {
        repl + replace_from(s, pat, repl, i + pat.len())
    } else {
        seq![s[i]] + replace_from(s, pat, repl, i + 1)
    }
}

/// Replaces each occurrence of `pat` in `s` by `repl`, leftmost first and
/// without overlap.
pub fn replace_literal(s: &str, pat: &str, repl: &str) -> (r: String)
    ensures
        r@ == replace_from(s@, pat@, repl@, 0),
{
    let n = s.unicode_len();
    let m = pat.unicode_len();
    let mut out = String::new();
    let mut i: usize = 0;
    while i < n
        invariant
            i <= n,
            n == s@.len(),
            m == pat@.len(),
            out@ + replace_from(s@, pat@, repl@, i as int) == replace_from(s@, pat@, repl@, 0),
        decreases n - i,
    {
        let ghost i0 = i as int;
        if m > 0 && matches_at(s, i, pat) {
            out.append(repl);
            proof {
                assert(out@ + replace_from(s@, pat@, repl@, i0 + pat@.len()) =~= replace_from(
                    s@,
                    pat@,
                    repl@,
                    0,
                ));
            }
            i = i + m;
        } else {
            out.append(s.substring_char(i, i + 1));
            proof {
                assert(seq![s@[i0]] =~= s@.subrange(i0, i0 + 1));
                assert(replace_from(s@, pat@, repl@, i0) == seq![s@[i0]] + replace_from(
                    s@,
                    pat@,
                    repl@,
                    i0 + 1,
                ));
                assert(out@ + replace_from(s@, pat@, repl@, i0 + 1) =~= replace_from(
                    s@,
                    pat@,
                    repl@,
                    0,
                ));
            }
            i = i + 1;
        }
    }
    proof {
        assert(replace_from(s@, pat@, repl@, n as int) =~= Seq::<char>::empty());
        assert(out@ + replace_from(s@, pat@, repl@, n as int) =~= out@);
    }
    out
}

/// First occurrence of the character `c` in `s` at or after `from`.
pub fn find_ch(s: &str, c: char, from: usize) -> (r: Option<usize>)
    ensures
        match r {
            Some(j) => find_char_from(s@, c, from as int) == j as int,
            None => find_char_from(s@, c, from as int) == -1,
        },
{
    let n = s.unicode_len();
    let mut i: usize = from;
    if from >= n {
        return None;
    }
    while i < n
        invariant
            from <= i <= n,
            n == s@.len(),
            find_char_from(s@, c, from as int) == find_char_from(s@, c, i as int),
        decreases n - i,
    {
        if s.get_char(i) == c {
            return Some(i);
        }
        i += 1;
    }
    None
}

} // verus!
