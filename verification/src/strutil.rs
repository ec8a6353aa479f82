//! Character-level string utilities with exact specifications.
//!
//! All searching, trimming and replacement used by the version-file parsers
//! and the URL resolution is built from these verified primitives.

use vstd::prelude::*;

verus! {

/// The pattern `p` occurs in `s` starting at position `i`.
pub open spec fn match_at(s: Seq<char>, p: Seq<char>, i: int) -> bool {
    0 <= i && i + p.len() <= s.len() && (forall|k: int| 0 <= k < p.len() ==> s[i + k] == p[k])
}

/// Index of the first occurrence of `p` in `s`, or -1 when `p` does not occur.
pub open spec fn idx_of(s: Seq<char>, p: Seq<char>) -> int
    decreases s.len(),
{
    if s.len() < p.len() {
        -1
    } else if match_at(s, p, 0) {
        0
    } else if s.len() == 0 {
        -1
    } else {
        let r = idx_of(s.drop_first(), p);
        if r < 0 {
            -1
        } else {
            r + 1
        }
    }
}

proof fn lemma_match_at_shift(s: Seq<char>, p: Seq<char>, i: int)
    requires
        s.len() > 0,
        1 <= i,
    ensures
        match_at(s, p, i) == match_at(s.drop_first(), p, i - 1),
{
    if match_at(s, p, i) {
        assert forall|k: int| 0 <= k < p.len() implies s.drop_first()[i - 1 + k] == p[k] by {
            assert(s[i + k] == p[k]);
        }
    }
    if match_at(s.drop_first(), p, i - 1) {
        assert forall|k: int| 0 <= k < p.len() implies s[i + k] == p[k] by {
            assert(s.drop_first()[i - 1 + k] == p[k]);
        }
    }
}

/// `idx_of` returns the least occurrence position.
pub proof fn lemma_idx_of_found(s: Seq<char>, p: Seq<char>, i: int)
    requires
        match_at(s, p, i),
        forall|j: int| 0 <= j < i ==> !match_at(s, p, j),
    ensures
        idx_of(s, p) == i,
    decreases s.len(),
{
    if i == 0 {
    } else {
        lemma_match_at_shift(s, p, i);
        assert forall|j: int| 0 <= j < i - 1 implies !match_at(s.drop_first(), p, j) by {
            lemma_match_at_shift(s, p, j + 1);
        }
        lemma_idx_of_found(s.drop_first(), p, i - 1);
    }
}

/// When `p` occurs nowhere in `s`, `idx_of` reports -1.
pub proof fn lemma_idx_of_absent(s: Seq<char>, p: Seq<char>)
    requires
        forall|j: int| !match_at(s, p, j),
    ensures
        idx_of(s, p) == -1,
    decreases s.len(),
{
    if s.len() >= p.len() && s.len() > 0 {
        assert forall|j: int| !match_at(s.drop_first(), p, j) by {
            if 0 <= j {
                lemma_match_at_shift(s, p, j + 1);
            }
        }
        lemma_idx_of_absent(s.drop_first(), p);
    }
}

/// What `idx_of` reports: a least occurrence position, or -1 when there is
/// none.
pub proof fn lemma_idx_of_props(s: Seq<char>, p: Seq<char>)
    ensures
        idx_of(s, p) >= -1,
        idx_of(s, p) >= 0 ==> match_at(s, p, idx_of(s, p)) && (forall|j: int|
            0 <= j < idx_of(s, p) ==> !match_at(s, p, j)),
        idx_of(s, p) == -1 ==> (forall|j: int| !match_at(s, p, j)),
    decreases s.len(),
{
    if s.len() < p.len() {
        assert forall|j: int| !match_at(s, p, j) by {}
    } else if match_at(s, p, 0) {
    } else if s.len() == 0 {
        assert forall|j: int| !match_at(s, p, j) by {}
    } else {
        lemma_idx_of_props(s.drop_first(), p);
        let r = idx_of(s.drop_first(), p);
        if r < 0 {
            assert forall|j: int| !match_at(s, p, j) by {
                if 1 <= j {
                    lemma_match_at_shift(s, p, j);
                }
            }
        } else {
            lemma_match_at_shift(s, p, r + 1);
            assert forall|j: int| 0 <= j < r + 1 implies !match_at(s, p, j) by {
                if 1 <= j {
                    lemma_match_at_shift(s, p, j);
                }
            }
        }
    }
}

/// Whether `p` occurs at position `i` of `s`.
pub fn is_match_at(s: &str, p: &str, i: usize) -> (r: bool)
    ensures
        r == match_at(s@, p@, i as int),
{
    let n: usize = s.unicode_len();
    let m: usize = p.unicode_len();
    if i > n || m > n - i {
        return false;
    }
    let mut k: usize = 0;
    while k < m
        invariant
            i + m <= n,
            n == s@.len(),
            m == p@.len(),
            k <= m,
            forall|j: int| 0 <= j < k ==> s@[i + j] == p@[j],
        decreases m - k,
    {
        if s.get_char(i + k) != p.get_char(k) {
            return false;
        }
        k += 1;
    }
    true
}

/// Whether `s` starts with `p`.
pub fn starts_with(s: &str, p: &str) -> (r: bool)
    ensures
        r == match_at(s@, p@, 0),
{
    is_match_at(s, p, 0)
}

/// `s` ends with `p`.
pub open spec fn ends_with_spec(s: Seq<char>, p: Seq<char>) -> bool {
    p.len() <= s.len() && match_at(s, p, s.len() - p.len())
}

/// Whether `s` ends with `p`.
pub fn ends_with(s: &str, p: &str) -> (r: bool)
    ensures
        r == ends_with_spec(s@, p@),
{
    let n: usize = s.unicode_len();
    let m: usize = p.unicode_len();
    if m > n {
        return false;
    }
    is_match_at(s, p, n - m)
}

/// Position of the first occurrence of `p` in `s`, per `idx_of`.
pub fn find(s: &str, p: &str) -> (r: Option<usize>)
    ensures
        match r {
            Some(i) => idx_of(s@, p@) == i as int,
            None => idx_of(s@, p@) == -1,
        },
{
    let n: usize = s.unicode_len();
    let m: usize = p.unicode_len();
    if m > n {
        proof {
            assert forall|j: int| !match_at(s@, p@, j) by {}
            lemma_idx_of_absent(s@, p@);
        }
        return None;
    }
    let mut i: usize = 0;
    while i <= n - m
        invariant
            m <= n,
            n == s@.len(),
            m == p@.len(),
            i <= n - m + 1,
            forall|j: int| 0 <= j < i ==> !match_at(s@, p@, j),
        decreases n - m + 1 - i,
    {
        if is_match_at(s, p, i) {
            proof {
                lemma_idx_of_found(s@, p@, i as int);
            }
            return Some(i);
        }
        i += 1;
    }
    proof {
        assert forall|j: int| !match_at(s@, p@, j) by {}
        lemma_idx_of_absent(s@, p@);
    }
    None
}

/// Whether the two strings hold the same characters.
pub fn str_eq(a: &str, b: &str) -> (r: bool)
    ensures
        r == (a@ == b@),
{
    let n: usize = a.unicode_len();
    if n != b.unicode_len() {
        return false;
    }
    let mut i: usize = 0;
    while i < n
        invariant
            n == a@.len(),
            n == b@.len(),
            i <= n,
            forall|j: int| 0 <= j < i ==> a@[j] == b@[j],
        decreases n - i,
    {
        if a.get_char(i) != b.get_char(i) {
            return false;
        }
        i += 1;
    }
    proof {
        assert(a@ =~= b@);
    }
    true
}

/// The whitespace characters recognised by `trim`.
pub open spec fn is_ws(c: char) -> bool {
    c == ' ' || c == '\t' || c == '\n' || c == '\r' || c == '\u{000B}' || c == '\u{000C}'
}

/// `s` with leading whitespace removed.
pub open spec fn trim_start_spec(s: Seq<char>) -> Seq<char>
    decreases s.len(),
{
    if s.len() > 0 && is_ws(s[0]) {
        trim_start_spec(s.drop_first())
    } else {
        s
    }
}

/// `s` with trailing whitespace removed.
pub open spec fn trim_end_spec(s: Seq<char>) -> Seq<char>
    decreases s.len(),
{
    if s.len() > 0 && is_ws(s[s.len() - 1]) {
        trim_end_spec(s.drop_last())
    } else {
        s
    }
}

/// `s` with leading and trailing whitespace removed.
pub open spec fn trim_spec(s: Seq<char>) -> Seq<char> {
    trim_end_spec(trim_start_spec(s))
}

proof fn lemma_trim_start_at(s: Seq<char>, i: int)
    requires
        0 <= i <= s.len(),
        forall|j: int| 0 <= j < i ==> is_ws(s[j]),
        i == s.len() || !is_ws(s[i]),
    ensures
        trim_start_spec(s) == s.subrange(i, s.len() as int),
    decreases i,
{
    if i == 0 {
        assert(s.subrange(0, s.len() as int) =~= s);
    } else {
        let t = s.drop_first();
        assert forall|j: int| 0 <= j < i - 1 implies is_ws(t[j]) by {
            assert(t[j] == s[j + 1]);
        }
        lemma_trim_start_at(t, i - 1);
        assert(t.subrange(i - 1, t.len() as int) =~= s.subrange(i, s.len() as int));
    }
}

proof fn lemma_trim_end_at(s: Seq<char>, i: int)
    requires
        0 <= i <= s.len(),
        forall|j: int| i <= j < s.len() ==> is_ws(s[j]),
        i == 0 || !is_ws(s[i - 1]),
    ensures
        trim_end_spec(s) == s.subrange(0, i),
    decreases s.len() - i,
{
    if i == s.len() {
        assert(s.subrange(0, i) =~= s);
    } else {
        let t = s.drop_last();
        lemma_trim_end_at(t, i);
        assert(t.subrange(0, i) =~= s.subrange(0, i));
    }
}

/// The longest substring of `s` without leading or trailing whitespace.
pub fn trim<'a>(s: &'a str) -> (r: &'a str)
    ensures
        r@ == trim_spec(s@),
{
    let n: usize = s.unicode_len();
    let mut a: usize = 0;
    while a < n && is_ws_char(s.get_char(a))
        invariant
            n == s@.len(),
            a <= n,
            forall|j: int| 0 <= j < a ==> is_ws(s@[j]),
        decreases n - a,
    {
        a += 1;
    }
    let mut b: usize = n;
    while b > a && is_ws_char(s.get_char(b - 1))
        invariant
            n == s@.len(),
            a <= b <= n,
            forall|j: int| 0 <= j < a ==> is_ws(s@[j]),
            a == n || !is_ws(s@[a as int]),
            forall|j: int| b <= j < n ==> is_ws(s@[j]),
        decreases b,
    {
        b -= 1;
    }
    proof {
        lemma_trim_start_at(s@, a as int);
        let t = s@.subrange(a as int, n as int);
        if b == a {
            lemma_trim_end_at(t, 0);
        } else {
            lemma_trim_end_at(t, b - a);
        }
        assert(t.subrange(0, b - a) =~= s@.subrange(a as int, b as int));
    }
    s.substring_char(a, b)
}

/// Whether `c` is one of the whitespace characters of `is_ws`.
pub fn is_ws_char(c: char) -> (r: bool)
    ensures
        r == is_ws(c),
{
    c == ' ' || c == '\t' || c == '\n' || c == '\r' || c == '\u{000B}' || c == '\u{000C}'
}

/// `s` with every leading repetition of `p` removed.
pub open spec fn strip_reps_spec(s: Seq<char>, p: Seq<char>) -> Seq<char>
    decreases s.len(),
{
    if p.len() == 0 {
        s
    } else if match_at(s, p, 0) {
        strip_reps_spec(s.subrange(p.len() as int, s.len() as int), p)
    } else {
        s
    }
}

/// Removes every leading repetition of `p` from `s`, as
/// `str::trim_start_matches` does.
pub fn strip_reps<'a>(s: &'a str, p: &str) -> (r: &'a str)
    requires
        p@.len() > 0,
    ensures
        r@ == strip_reps_spec(s@, p@),
{
    let n: usize = s.unicode_len();
    let m: usize = p.unicode_len();
    let mut a: usize = 0;
    proof {
        assert(s@.subrange(0, n as int) =~= s@);
    }
    while is_match_at(s, p, a)
        invariant
            n == s@.len(),
            m == p@.len(),
            m > 0,
            a <= n,
            strip_reps_spec(s@, p@) == strip_reps_spec(s@.subrange(a as int, n as int), p@),
        decreases n - a,
    {
        proof {
            let t = s@.subrange(a as int, n as int);
            assert(match_at(t, p@, 0)) by {
                assert forall|k: int| 0 <= k < p@.len() implies t[k] == p@[k] by {
                    assert(s@[a + k] == p@[k]);
                }
            }
            assert(t.subrange(m as int, t.len() as int) =~= s@.subrange(
                a + m as int,
                n as int,
            ));
        }
        a += m;
    }
    proof {
        let t = s@.subrange(a as int, n as int);
        assert(!match_at(t, p@, 0)) by {
            if match_at(t, p@, 0) {
                assert forall|k: int| 0 <= k < p@.len() implies s@[a + k] == p@[k] by {
                    assert(t[k] == p@[k]);
                }
                assert(match_at(s@, p@, a as int));
            }
        }
    }
    s.substring_char(a, n)
}

/// `s` with every non-overlapping occurrence of `from`, scanned left to
/// right, replaced by `to`.
pub open spec fn replace_spec(s: Seq<char>, from: Seq<char>, to: Seq<char>) -> Seq<char>
    decreases s.len(),
{
    if from.len() == 0 {
        s
    } else if s.len() < from.len() {
        s
    } else if match_at(s, from, 0) {
        to + replace_spec(s.subrange(from.len() as int, s.len() as int), from, to)
    } else {
        seq![s[0]] + replace_spec(s.drop_first(), from, to)
    }
}

/// Replaces every occurrence of `from` in `s` with `to`, as `str::replace`
/// does.
pub fn replace_all(s: &str, from: &str, to: &str) -> (r: String)
    requires
        from@.len() > 0,
    ensures
        r@ == replace_spec(s@, from@, to@),
{
    let n: usize = s.unicode_len();
    let m: usize = from.unicode_len();
    let mut out: String = String::new();
    let mut i: usize = 0;
    proof {
        assert(s@.subrange(0, n as int) =~= s@);
    }
    while i < n
        invariant
            n == s@.len(),
            m == from@.len(),
            m > 0,
            i <= n,
            replace_spec(s@, from@, to@) == out@ + replace_spec(
                s@.subrange(i as int, n as int),
                from@,
                to@,
            ),
        decreases n - i,
    {
        let ghost t = s@.subrange(i as int, n as int);
        if is_match_at(s, from, i) {
            proof {
                assert(match_at(t, from@, 0)) by {
                    assert forall|k: int| 0 <= k < from@.len() implies t[k] == from@[k] by {
                        assert(s@[i + k] == from@[k]);
                    }
                }
                assert(t.subrange(m as int, t.len() as int) =~= s@.subrange(
                    i + m as int,
                    n as int,
                ));
                assert(out@ + (to@ + replace_spec(s@.subrange(i + m as int, n as int), from@, to@))
                    =~= (out@ + to@) + replace_spec(s@.subrange(i + m as int, n as int), from@, to@));
            }
            out.append(to);
            i += m;
        } else {
            proof {
                assert(!match_at(t, from@, 0)) by {
                    if match_at(t, from@, 0) {
                        assert forall|k: int| 0 <= k < from@.len() implies s@[i + k] == from@[k] by {
                            assert(t[k] == from@[k]);
                        }
                        assert(match_at(s@, from@, i as int));
                    }
                }
                if t.len() < from@.len() {
                } else {
                    assert(t.drop_first() =~= s@.subrange(i + 1, n as int));
                }
                assert(seq![t[0]] + replace_spec(s@.subrange(i + 1, n as int), from@, to@)
                    == replace_spec(t, from@, to@));
                let piece = s@.subrange(i as int, i + 1);
                assert(piece =~= seq![t[0]]);
                assert(out@ + (piece + replace_spec(s@.subrange(i + 1, n as int), from@, to@))
                    =~= (out@ + piece) + replace_spec(s@.subrange(i + 1, n as int), from@, to@));
            }
            out.append(s.substring_char(i, i + 1));
            i += 1;
        }
    }
    proof {
        assert(s@.subrange(n as int, n as int) =~= Seq::<char>::empty());
        assert(out@ + Seq::<char>::empty() =~= out@);
    }
    out
}

/// A line with a single trailing carriage return removed.
pub open spec fn strip_cr(l: Seq<char>) -> Seq<char> {
    if l.len() > 0 && l[l.len() - 1] == '\r' {
        l.drop_last()
    } else {
        l
    }
}

/// The lines of `s`: segments split at `'\n'`, each with a carriage return
/// before the newline removed; a final line ending opens no empty line.
pub open spec fn line_seqs(s: Seq<char>) -> Seq<Seq<char>>
    decreases s.len(),
{
    if s.len() == 0 {
        Seq::empty()
    } else {
        let i = idx_of(s, seq!['\n']);
        if i < 0 || i >= s.len() {
            seq![s]
        } else {
            seq![strip_cr(s.subrange(0, i))] + line_seqs(s.subrange(i + 1, s.len() as int))
        }
    }
}

/// Splits `s` into its lines, as `str::lines` does.
pub fn split_lines<'a>(s: &'a str) -> (r: Vec<&'a str>)
    ensures
        r.deep_view() == line_seqs(s@),
{
    let mut out: Vec<&'a str> = Vec::new();
    let mut rest: &'a str = s;
    let mut n: usize = rest.unicode_len();
    proof {
        reveal_strlit("\n");
    }
    while n > 0
        invariant
            n == rest@.len(),
            "\n"@ == seq!['\n'],
            line_seqs(s@) == out.deep_view() + line_seqs(rest@),
        decreases n,
    {
        let ghost prev_out = out.deep_view();
        match find(rest, "\n") {
            Some(i) => {
                proof {
                    lemma_idx_of_props(rest@, "\n"@);
                    assert(match_at(rest@, seq!['\n'], i as int));
                    assert(rest@[i as int] == seq!['\n'][0]);
                }
                let line: &'a str = if i > 0 && rest.get_char(i - 1) == '\r' {
                    rest.substring_char(0, i - 1)
                } else {
                    rest.substring_char(0, i)
                };
                proof {
                    let seg = rest@.subrange(0, i as int);
                    if i > 0 && rest@[i as int - 1] == '\r' {
                        assert(seg[seg.len() - 1] == '\r');
                        assert(rest@.subrange(0, i as int - 1) =~= seg.drop_last());
                    }
                    assert(line@ == strip_cr(seg));
                }
                out.push(line);
                let next: &'a str = rest.substring_char(i + 1, n);
                proof {
                    assert(match_at(rest@, seq!['\n'], i as int));
                    assert(rest@.len() > 0);
                    assert(out.deep_view() =~= prev_out + seq![line@]);
                    assert(line_seqs(rest@) == seq![strip_cr(rest@.subrange(0, i as int))]
                        + line_seqs(rest@.subrange(i as int + 1, rest@.len() as int)));
                    assert((prev_out + seq![line@]) + line_seqs(next@) =~= prev_out + (seq![line@]
                        + line_seqs(next@)));
                }
                rest = next;
                n = rest.unicode_len();
            },
            None => {
                out.push(rest);
                proof {
                    assert(line_seqs(rest@) == seq![rest@]);
                    assert(out.deep_view() =~= prev_out + seq![rest@]);
                    assert(prev_out + seq![rest@] + line_seqs(Seq::<char>::empty()) =~= prev_out
                        + seq![rest@]);
                }
                rest = "";
                proof {
                    reveal_strlit("");
                    assert(rest@ =~= Seq::<char>::empty());
                }
                n = 0;
            },
        }
    }
    proof {
        assert(line_seqs(rest@) =~= Seq::<Seq<char>>::empty());
        assert(out.deep_view() + Seq::<Seq<char>>::empty() =~= out.deep_view());
    }
    out
}

/// `s` holds no opening brace.
pub open spec fn brace_free(s: Seq<char>) -> bool {
    forall|i: int| 0 <= i < s.len() ==> s[i] != '{'
}

/// Every opening brace in `s` begins an occurrence of `n1` or of `n2`.
pub open spec fn braces_open_one_of(s: Seq<char>, n1: Seq<char>, n2: Seq<char>) -> bool {
    forall|i: int|
        0 <= i < s.len() && s[i] == '{' ==> match_at(s, n1, i) || match_at(s, n2, i)
}

/// A needle of the placeholder shape: non-empty, it opens with a brace
/// and holds no other.
pub open spec fn placeholder_shaped(n: Seq<char>) -> bool {
    0 < n.len() && n[0] == '{' && (forall|j: int| 1 <= j < n.len() ==> n[j] != '{')
}

proof fn lemma_match_at_in_suffix(s: Seq<char>, p: Seq<char>, k: int, i: int)
    requires
        0 <= k <= i,
        match_at(s, p, i),
    ensures
        match_at(s.subrange(k, s.len() as int), p, i - k),
{
    let t = s.subrange(k, s.len() as int);
    assert forall|j: int| 0 <= j < p.len() implies t[i - k + j] == p[j] by {
        assert(s[i + j] == p[j]);
    }
}

proof fn lemma_match_at_concat_right(a: Seq<char>, b: Seq<char>, p: Seq<char>, i: int)
    requires
        match_at(b, p, i),
    ensures
        match_at(a + b, p, a.len() + i),
{
    assert forall|j: int| 0 <= j < p.len() implies (a + b)[a.len() + i + j] == p[j] by {
        assert(b[i + j] == p[j]);
    }
}

/// When no occurrence of `n` begins before `k`, replacement copies the
/// first `k` characters verbatim.
proof fn lemma_replace_skip_prefix(s: Seq<char>, n: Seq<char>, t: Seq<char>, k: int)
    requires
        0 < n.len(),
        0 <= k <= s.len(),
        forall|i: int| 0 <= i < k ==> !match_at(s, n, i),
    ensures
        replace_spec(s, n, t) == s.subrange(0, k) + replace_spec(
            s.subrange(k, s.len() as int),
            n,
            t,
        ),
    decreases k,
{
    if k == 0 {
        assert(s.subrange(0, s.len() as int) =~= s);
        assert(s.subrange(0, 0) + replace_spec(s, n, t) =~= replace_spec(s, n, t));
    } else if s.len() < n.len() {
        assert(s.subrange(k, s.len() as int).len() < n.len());
        assert(s.subrange(0, k) + s.subrange(k, s.len() as int) =~= s);
    } else {
        assert(!match_at(s, n, 0));
        let d = s.drop_first();
        assert forall|i: int| 0 <= i < k - 1 implies !match_at(d, n, i) by {
            lemma_match_at_shift(s, n, i + 1);
        }
        lemma_replace_skip_prefix(d, n, t, k - 1);
        assert(d.subrange(0, k - 1) =~= s.subrange(1, k));
        assert(d.subrange(k - 1, d.len() as int) =~= s.subrange(k, s.len() as int));
        assert(seq![s[0]] + (s.subrange(1, k) + replace_spec(s.subrange(k, s.len() as int), n, t))
            =~= s.subrange(0, k) + replace_spec(s.subrange(k, s.len() as int), n, t));
    }
}

/// After replacing `n1` by a brace-free `t`, every remaining opening
/// brace begins an occurrence of `n2`.
proof fn lemma_replace_braces(s: Seq<char>, n1: Seq<char>, n2: Seq<char>, t: Seq<char>)
    requires
        placeholder_shaped(n1),
        placeholder_shaped(n2),
        brace_free(t),
        braces_open_one_of(s, n1, n2),
    ensures
        forall|i: int|
            0 <= i < replace_spec(s, n1, t).len() && replace_spec(s, n1, t)[i] == '{'
                ==> match_at(replace_spec(s, n1, t), n2, i),
    decreases s.len(),
{
    let u = replace_spec(s, n1, t);
    if s.len() < n1.len() {
        assert forall|i: int| 0 <= i < u.len() && u[i] == '{' implies match_at(u, n2, i) by {
            assert(!match_at(s, n1, i));
        }
    } else if match_at(s, n1, 0) {
        let rest = s.subrange(n1.len() as int, s.len() as int);
        assert forall|i: int| 0 <= i < rest.len() && rest[i] == '{' implies match_at(rest, n1, i)
            || match_at(rest, n2, i) by {
            assert(s[n1.len() + i] == '{');
            if match_at(s, n1, n1.len() + i) {
                lemma_match_at_in_suffix(s, n1, n1.len() as int, n1.len() + i);
            } else {
                lemma_match_at_in_suffix(s, n2, n1.len() as int, n1.len() + i);
            }
        }
        lemma_replace_braces(rest, n1, n2, t);
        let u2 = replace_spec(rest, n1, t);
        assert(u == t + u2);
        assert forall|i: int| 0 <= i < u.len() && u[i] == '{' implies match_at(u, n2, i) by {
            if i < t.len() {
                assert(t[i] != '{');
            } else {
                assert(u[i] == u2[i - t.len()]);
                assert(match_at(u2, n2, i - t.len()));
                lemma_match_at_concat_right(t, u2, n2, i - t.len());
            }
        }
    } else if s[0] != '{' {
        let d = s.drop_first();
        assert forall|i: int| 0 <= i < d.len() && d[i] == '{' implies match_at(d, n1, i)
            || match_at(d, n2, i) by {
            assert(s[i + 1] == '{');
            if match_at(s, n1, i + 1) {
                lemma_match_at_shift(s, n1, i + 1);
            } else {
                lemma_match_at_shift(s, n2, i + 1);
            }
        }
        lemma_replace_braces(d, n1, n2, t);
        let u2 = replace_spec(d, n1, t);
        assert(u == seq![s[0]] + u2);
        assert forall|i: int| 0 <= i < u.len() && u[i] == '{' implies match_at(u, n2, i) by {
            assert(i >= 1);
            assert(u[i] == u2[i - 1]);
            assert(match_at(u2, n2, i - 1));
            lemma_match_at_concat_right(seq![s[0]], u2, n2, i - 1);
        }
    } else {
        // An opening brace heads `s` but no `n1` occurrence does, so an
        // `n2` occurrence begins there; its body holds no brace, so the
        // replacement walks past it verbatim.
        assert(match_at(s, n2, 0));
        let k = n2.len() as int;
        assert forall|i: int| 0 <= i < k implies !match_at(s, n1, i) by {
            if i > 0 {
                assert(s[i] == n2[i]);
                if match_at(s, n1, i) {
                    assert(s[i] == n1[0]);
                }
            }
        }
        lemma_replace_skip_prefix(s, n1, t, k);
        let sk = s.subrange(k, s.len() as int);
        assert forall|i: int| 0 <= i < sk.len() && sk[i] == '{' implies match_at(sk, n1, i)
            || match_at(sk, n2, i) by {
            assert(s[k + i] == '{');
            if match_at(s, n1, k + i) {
                lemma_match_at_in_suffix(s, n1, k, k + i);
            } else {
                lemma_match_at_in_suffix(s, n2, k, k + i);
            }
        }
        lemma_replace_braces(sk, n1, n2, t);
        let u2 = replace_spec(sk, n1, t);
        assert(u == s.subrange(0, k) + u2);
        assert forall|i: int| 0 <= i < u.len() && u[i] == '{' implies match_at(u, n2, i) by {
            if i == 0 {
                assert forall|j: int| 0 <= j < n2.len() implies u[j] == n2[j] by {
                    assert(u[j] == s.subrange(0, k)[j]);
                    assert(s[j] == n2[j]);
                }
            } else if i < k {
                assert(u[i] == s.subrange(0, k)[i]);
                assert(s[i] == n2[i]);
                assert(n2[i] != '{');
            } else {
                assert(u[i] == u2[i - k]);
                assert(match_at(u2, n2, i - k));
                lemma_match_at_concat_right(s.subrange(0, k), u2, n2, i - k);
            }
        }
    }
}

/// After replacing every occurrence of a placeholder-shaped `n` — where
/// every opening brace begins one — by a brace-free `t`, no opening brace
/// remains.
proof fn lemma_replace_eliminates_braces(s: Seq<char>, n: Seq<char>, t: Seq<char>)
    requires
        placeholder_shaped(n),
        brace_free(t),
        forall|i: int| 0 <= i < s.len() && s[i] == '{' ==> match_at(s, n, i),
    ensures
        brace_free(replace_spec(s, n, t)),
    decreases s.len(),
{
    let u = replace_spec(s, n, t);
    if s.len() < n.len() {
        assert forall|i: int| 0 <= i < u.len() implies u[i] != '{' by {
            assert(!match_at(s, n, i));
        }
    } else if match_at(s, n, 0) {
        let rest = s.subrange(n.len() as int, s.len() as int);
        assert forall|i: int| 0 <= i < rest.len() && rest[i] == '{' implies match_at(rest, n, i) by {
            assert(s[n.len() + i] == '{');
            lemma_match_at_in_suffix(s, n, n.len() as int, n.len() + i);
        }
        lemma_replace_eliminates_braces(rest, n, t);
        let u2 = replace_spec(rest, n, t);
        assert(u == t + u2);
        assert forall|i: int| 0 <= i < u.len() implies u[i] != '{' by {
            if i >= t.len() {
                assert(u[i] == u2[i - t.len()]);
            }
        }
    } else {
        assert(s[0] != '{');
        let d = s.drop_first();
        assert forall|i: int| 0 <= i < d.len() && d[i] == '{' implies match_at(d, n, i) by {
            assert(s[i + 1] == '{');
            lemma_match_at_shift(s, n, i + 1);
        }
        lemma_replace_eliminates_braces(d, n, t);
        let u2 = replace_spec(d, n, t);
        assert(u == seq![s[0]] + u2);
        assert forall|i: int| 0 <= i < u.len() implies u[i] != '{' by {
            if i >= 1 {
                assert(u[i] == u2[i - 1]);
            }
        }
    }
}

/// Law: replacing, in order, two placeholder-shaped needles that account
/// for every opening brace, each by brace-free text, leaves a result with
/// no opening brace — and so no occurrence of either needle.
pub proof fn lemma_double_replace_leaves_no_needle(
    s: Seq<char>,
    n1: Seq<char>,
    n2: Seq<char>,
    t1: Seq<char>,
    t2: Seq<char>,
)
    requires
        placeholder_shaped(n1),
        placeholder_shaped(n2),
        brace_free(t1),
        brace_free(t2),
        braces_open_one_of(s, n1, n2),
    ensures
        brace_free(replace_spec(replace_spec(s, n1, t1), n2, t2)),
        forall|i: int| !match_at(replace_spec(replace_spec(s, n1, t1), n2, t2), n1, i),
        forall|i: int| !match_at(replace_spec(replace_spec(s, n1, t1), n2, t2), n2, i),
{
    lemma_replace_braces(s, n1, n2, t1);
    let u = replace_spec(s, n1, t1);
    lemma_replace_eliminates_braces(u, n2, t2);
    let w = replace_spec(u, n2, t2);
    assert forall|i: int| !match_at(w, n1, i) by {
        if match_at(w, n1, i) {
            assert(w[i] == n1[0]);
        }
    }
    assert forall|i: int| !match_at(w, n2, i) by {
        if match_at(w, n2, i) {
            assert(w[i] == n2[0]);
        }
    }
}

/// Case-folds an ASCII letter given as its code point.
pub open spec fn lower_code(c: int) -> int {
    if 65 <= c <= 90 {
        c + 32
    } else {
        c
    }
}

/// The two character sequences are equal up to ASCII case.
pub open spec fn ascii_ci_eq(a: Seq<char>, b: Seq<char>) -> bool {
    a.len() == b.len() && (forall|i: int|
        0 <= i < a.len() ==> lower_code(a[i] as int) == lower_code(b[i] as int))
}

/// Compares two strings ignoring ASCII case.
pub fn eq_ignore_ascii_case(a: &str, b: &str) -> (r: bool)
    ensures
        r == ascii_ci_eq(a@, b@),
{
    let n: usize = a.unicode_len();
    if n != b.unicode_len() {
        return false;
    }
    let mut i: usize = 0;
    while i < n
        invariant
            n == a@.len(),
            n == b@.len(),
            i <= n,
            forall|j: int| 0 <= j < i ==> lower_code(a@[j] as int) == lower_code(b@[j] as int),
        decreases n - i,
    {
        let x: u32 = a.get_char(i) as u32;
        let y: u32 = b.get_char(i) as u32;
        let xl: u32 = if 65 <= x && x <= 90 {
            x + 32
        } else {
            x
        };
        let yl: u32 = if 65 <= y && y <= 90 {
            y + 32
        } else {
            y
        };
        if xl != yl {
            return false;
        }
        i += 1;
    }
    true
}

} // verus!
