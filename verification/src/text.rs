//! Character-level text utilities: substring search, line splitting in the
//! style of buffered line reading (a terminating line feed ends a line, a
//! carriage return before it is dropped), and joining lines back together.
use vstd::prelude::*;
use vstd::string::StrSliceExecFns;

verus! {

/// The view of an optional string: the characters when present.
pub open spec fn opt_view(o: Option<String>) -> Option<Seq<char>> {
    match o {
        Some(s) => Some(s@),
        None => None,
    }
}

/// The UTF-8 decoding of a byte sequence: the decoded text when the bytes
/// are valid UTF-8, nothing otherwise. The outcome is a function of the
/// bytes alone.
pub uninterp spec fn utf8_decode(b: Seq<u8>) -> Option<Seq<char>>;

/// Relies on String::from_utf8: decodes the bytes as UTF-8 and rejects
/// byte sequences that are not valid UTF-8.
#[verifier::external_body]
pub(crate) fn utf8_to_string(b: &[u8]) -> (r: Option<String>)
    ensures
        opt_view(r) == utf8_decode(b@),
{
    String::from_utf8(b.to_vec()).ok()
}

/// Relies on String as FromIterator<char>: collecting characters yields the
/// string holding exactly those characters.
#[verifier::external_body]
pub(crate) fn chars_to_string(v: &Vec<char>) -> (r: String)
    ensures
        r@ == v@,
{
    v.iter().collect()
}

/// The characters of a string slice, as a vector.
pub(crate) fn chars_of(s: &str) -> (r: Vec<char>)
    ensures
        r@ == s@,
{
    let n = s.unicode_len();
    let mut r: Vec<char> = Vec::new();
    let mut i: usize = 0;
    while i < n
        invariant
            i <= n,
            n == s@.len(),
            r@ == s@.take(i as int),
        decreases n - i,
    {
        let c = s.get_char(i);
        r.push(c);
        i = i + 1;
        proof {
            assert(r@ =~= s@.take(i as int));
        }
    }
    proof {
        assert(s@.take(n as int) =~= s@);
    }
    r
}

/// Whether the two string slices hold the same characters.
pub(crate) fn str_eq(a: &str, b: &str) -> (r: bool)
    ensures
        r == (a@ == b@),
{
    let sa = String::from_str(a);
    let sb = String::from_str(b);
    sa == sb
}

/// `pat` occurs in `l` starting exactly at position `i`.
pub open spec fn match_at(l: Seq<char>, pat: Seq<char>, i: int) -> bool {
    &&& 0 <= i
    &&& i + pat.len() <= l.len()
    &&& l.subrange(i, i + pat.len() as int) == pat
}

/// The position of the first occurrence of `pat` in `l` at or after `i`.
pub open spec fn find_from(l: Seq<char>, pat: Seq<char>, i: int) -> Option<int>
    recommends
        0 <= i,
    decreases l.len() + pat.len() + 1 - i,
    when 0 <= i
{
    if i + pat.len() > l.len() {
        None
    } else if match_at(l, pat, i) {
        Some(i)
    } else {
        find_from(l, pat, i + 1)
    }
}

pub proof fn lemma_find_from_some(l: Seq<char>, pat: Seq<char>, i: int, j: int)
    requires
        0 <= i <= j,
        match_at(l, pat, j),
        forall|k: int| i <= k < j ==> !match_at(l, pat, k),
    ensures
        find_from(l, pat, i) == Some(j),
    decreases j - i,
{
    if i < j {
        lemma_find_from_some(l, pat, i + 1, j);
    }
}

pub proof fn lemma_find_from_none(l: Seq<char>, pat: Seq<char>, i: int)
    requires
        0 <= i,
        forall|k: int| i <= k ==> !match_at(l, pat, k),
    ensures
        find_from(l, pat, i) is None,
    decreases l.len() + pat.len() + 1 - i,
{
    if i + pat.len() <= l.len() {
        lemma_find_from_none(l, pat, i + 1);
    }
}

/// Whether `pat` occurs in `l` starting exactly at position `i`.
fn pat_matches_at(line: &Vec<char>, pat: &Vec<char>, i: usize) -> (r: bool)
    requires
        i + pat@.len() <= line@.len(),
    ensures
        r == match_at(line@, pat@, i as int),
{
    let n = line.len();
    let m = pat.len();
    let mut t: usize = 0;
    while t < m
        invariant
            t <= m,
            m == pat@.len(),
            n == line@.len(),
            i + m <= n,
            forall|k: int| 0 <= k < t ==> line@[i + k] == pat@[k],
        decreases m - t,
    {
        if line[i + t] != pat[t] {
            proof {
                assert(line@.subrange(i as int, i + pat@.len() as int) != pat@) by {
                    assert(line@.subrange(i as int, i + pat@.len() as int)[t as int]
                        == line@[i + t]);
                }
            }
            return false;
        }
        t = t + 1;
    }
    proof {
        assert(line@.subrange(i as int, i + pat@.len() as int) =~= pat@);
    }
    true
}

/// The position of the first occurrence of `pat` in `line`, if any.
pub(crate) fn find_pat(line: &Vec<char>, pat: &Vec<char>) -> (r: Option<usize>)
    ensures
        find_from(line@, pat@, 0) == (match r {
            Some(u) => Some(u as int),
            None => None::<int>,
        }),
{
    let n = line.len();
    let m = pat.len();
    if m > n {
        proof {
            assert(forall|k: int| 0 <= k ==> !match_at(line@, pat@, k));
            lemma_find_from_none(line@, pat@, 0);
        }
        return None;
    }
    if m == 0 {
        proof {
            assert(line@.subrange(0, 0) =~= pat@);
            lemma_find_from_some(line@, pat@, 0, 0);
        }
        return Some(0);
    }
    let mut i: usize = 0;
    while i <= n - m
        invariant
            1 <= m <= n,
            n == line@.len(),
            m == pat@.len(),
            i <= n - m + 1,
            forall|k: int| 0 <= k < i ==> !match_at(line@, pat@, k),
        decreases n - m - i + 1,
    {
        if pat_matches_at(line, pat, i) {
            proof {
                lemma_find_from_some(line@, pat@, 0, i as int);
            }
            return Some(i);
        }
        i = i + 1;
    }
    proof {
        assert(forall|k: int| 0 <= k ==> !match_at(line@, pat@, k));
        lemma_find_from_none(line@, pat@, 0);
    }
    None
}

/// Whether `line` begins with `pat`.
pub(crate) fn starts_with_pat(line: &Vec<char>, pat: &Vec<char>) -> (r: bool)
    ensures
        r == match_at(line@, pat@, 0),
{
    if pat.len() > line.len() {
        return false;
    }
    pat_matches_at(line, pat, 0)
}

/// `l` with its first `p` characters removed; fewer are removed when the
/// line is shorter than `p`.
pub open spec fn strip_prefix(l: Seq<char>, p: int) -> Seq<char>
    recommends
        0 <= p,
{
    if p >= l.len() {
        Seq::empty()
    } else {
        l.skip(p)
    }
}

/// `v` with its first `p` characters removed (fewer when `v` is shorter).
pub(crate) fn vec_skip(v: &Vec<char>, p: usize) -> (r: Vec<char>)
    ensures
        r@ == strip_prefix(v@, p as int),
{
    let n = v.len();
    let start = if p < n {
        p
    } else {
        n
    };
    let mut r: Vec<char> = Vec::new();
    let mut i: usize = start;
    while i < n
        invariant
            start <= i <= n,
            n == v@.len(),
            r@ == v@.subrange(start as int, i as int),
        decreases n - i,
    {
        r.push(v[i]);
        i = i + 1;
        proof {
            assert(r@ =~= v@.subrange(start as int, i as int));
        }
    }
    proof {
        if p as int >= v@.len() {
            assert(r@ =~= Seq::<char>::empty());
        } else {
            assert(r@ =~= v@.skip(p as int));
        }
    }
    r
}

/// A line with a final carriage return dropped, as a line reader does for
/// lines that end in a carriage return followed by a line feed.
pub open spec fn strip_cr(l: Seq<char>) -> Seq<char> {
    if l.len() > 0 && l.last() == '\r' {
        l.drop_last()
    } else {
        l
    }
}

/// The state of a left-to-right line splitter: finished lines, and the
/// characters of the line being read.
pub ghost struct SplitAcc {
    pub done: Seq<Seq<char>>,
    pub cur: Seq<char>,
}

pub open spec fn split_step(acc: SplitAcc, c: char) -> SplitAcc {
    if c == '\n' {
        SplitAcc { done: acc.done.push(strip_cr(acc.cur)), cur: Seq::empty() }
    } else {
        SplitAcc { done: acc.done, cur: acc.cur.push(c) }
    }
}

pub open spec fn split_fold(text: Seq<char>) -> SplitAcc
    decreases text.len(),
{
    if text.len() == 0 {
        SplitAcc { done: Seq::empty(), cur: Seq::empty() }
    } else {
        split_step(split_fold(text.drop_last()), text.last())
    }
}

/// The physical lines of `text`: segments between line feeds, each with a
/// final carriage return dropped; an unterminated final segment counts only
/// when it is non-empty.
pub open spec fn split_lines(text: Seq<char>) -> Seq<Seq<char>> {
    let acc = split_fold(text);
    if acc.cur.len() == 0 {
        acc.done
    } else {
        acc.done.push(acc.cur)
    }
}

/// Splits `text` into physical lines.
pub(crate) fn split_lines_vec(text: &Vec<char>) -> (r: Vec<Vec<char>>)
    ensures
        r.deep_view() == split_lines(text@),
{
    let mut done: Vec<Vec<char>> = Vec::new();
    let mut cur: Vec<char> = Vec::new();
    let n = text.len();
    let mut i: usize = 0;
    while i < n
        invariant
            i <= n,
            n == text@.len(),
            done.deep_view() == split_fold(text@.take(i as int)).done,
            cur@ == split_fold(text@.take(i as int)).cur,
        decreases n - i,
    {
        let c = text[i];
        proof {
            assert(text@.take(i + 1 as int).drop_last() =~= text@.take(i as int));
            assert(text@.take(i + 1 as int).last() == text@[i as int]);
        }
        if c == '\n' {
            if cur.len() > 0 && cur[cur.len() - 1] == '\r' {
                let _dropped = cur.pop();
            }
            done.push(cur);
            cur = Vec::new();
            proof {
                assert(done.deep_view() =~~= split_fold(text@.take(i + 1 as int)).done);
            }
        } else {
            cur.push(c);
        }
        i = i + 1;
    }
    proof {
        assert(text@.take(n as int) =~= text@);
    }
    if cur.len() > 0 {
        done.push(cur);
        proof {
            assert(done.deep_view() =~~= split_lines(text@));
        }
    } else {
        proof {
            assert(done.deep_view() =~~= split_lines(text@));
        }
    }
    done
}

/// The lines joined with a single line feed between consecutive lines.
pub open spec fn join_nl(ls: Seq<Seq<char>>) -> Seq<char>
    decreases ls.len(),
{
    if ls.len() == 0 {
        Seq::empty()
    } else if ls.len() == 1 {
        ls[0]
    } else {
        join_nl(ls.drop_last()) + seq!['\n'] + ls.last()
    }
}

proof fn lemma_join_step(ls: Seq<Seq<char>>, k: int)
    requires
        0 <= k < ls.len(),
    ensures
        join_nl(ls.take(k + 1)) == if k == 0 {
            ls[0]
        } else {
            join_nl(ls.take(k)) + seq!['\n'] + ls[k]
        },
{
    assert(ls.take(k + 1).drop_last() =~= ls.take(k));
    assert(ls.take(k + 1).last() == ls[k]);
}

/// Joins the lines with a single line feed between consecutive lines.
pub(crate) fn join_nl_vec(lines: &Vec<Vec<char>>) -> (r: Vec<char>)
    ensures
        r@ == join_nl(lines.deep_view()),
{
    let mut r: Vec<char> = Vec::new();
    let n = lines.len();
    let mut k: usize = 0;
    proof {
        assert(lines.deep_view().len() == n);
    }
    while k < n
        invariant
            k <= n,
            n == lines@.len(),
            lines.deep_view().len() == n,
            r@ == join_nl(lines.deep_view().take(k as int)),
        decreases n - k,
    {
        proof {
            lemma_join_step(lines.deep_view(), k as int);
        }
        if k > 0 {
            r.push('\n');
        }
        let line = &lines[k];
        proof {
            assert(line@ =~= lines.deep_view()[k as int]);
        }
        let m = line.len();
        let ghost base = r@;
        let mut j: usize = 0;
        while j < m
            invariant
                j <= m,
                m == line@.len(),
                r@ == base + line@.take(j as int),
            decreases m - j,
        {
            r.push(line[j]);
            j = j + 1;
            proof {
                assert(r@ =~= base + line@.take(j as int));
            }
        }
        k = k + 1;
        proof {
            assert(line@.take(m as int) =~= line@);
            assert(r@ =~= join_nl(lines.deep_view().take(k as int)));
        }
    }
    proof {
        assert(lines.deep_view().take(n as int) =~= lines.deep_view());
    }
    r
}

} // verus!
