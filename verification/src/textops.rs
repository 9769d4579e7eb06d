//! Text operations used to build request URLs: replacing every occurrence of a
//! pattern, trimming a leading character, splitting on a character and joining
//! with a separator.

use vstd::prelude::*;
use crate::text::push_char;

verus! {

/// `s` with every non-overlapping occurrence of a non-empty `pat`, found from the
/// left, replaced by `rep` (`str::replace`).
pub open spec fn replaced(s: Seq<char>, pat: Seq<char>, rep: Seq<char>) -> Seq<char>
    decreases s.len(),
{
    if s.len() == 0 {
        Seq::empty()
    } else if 0 < pat.len() <= s.len() && s.take(pat.len() as int) == pat {
        rep + replaced(s.skip(pat.len() as int), pat, rep)
    } else {
        seq![s[0]] + replaced(s.drop_first(), pat, rep)
    }
}

/// Whether `pat` occurs in `s` at char position `i`.
fn occurs_at(s: &str, i: usize, pat: &str) -> (b: bool)
    requires
        i <= s@.len(),
    ensures
        b == (i + pat@.len() <= s@.len() && s@.skip(i as int).take(pat@.len() as int) == pat@),
{
    let n = s.unicode_len();
    let m = pat.unicode_len();
    if m > n - i {
        return false;
    }
    let mut k: usize = 0;
    while k < m
        invariant
            n == s@.len(),
            m == pat@.len(),
            i + m <= n,
            k <= m,
            forall|j: int| 0 <= j < k ==> #[trigger] s@[i + j] == pat@[j],
        decreases m - k,
    {
        if s.get_char(i + k) != pat.get_char(k) {
            assert(s@.skip(i as int).take(m as int)[k as int] != pat@[k as int]);
            return false;
        }
        k = k + 1;
    }
    assert forall|j: int| 0 <= j < m implies #[trigger] s@.skip(i as int).take(m as int)[j] == pat@[j] by {
        assert(s@[i + j] == pat@[j]);
    }
    assert(s@.skip(i as int).take(m as int) =~= pat@);
    true
}

/// Appends the chars of `s` from position `from` up to `to`.
fn push_range(out: &mut String, s: &str, from: usize, to: usize)
    requires
        from <= to <= s@.len(),
    ensures
        final(out)@ == old(out)@ + s@.subrange(from as int, to as int),
{
    let mut k = from;
    while k < to
        invariant
            from <= k <= to,
            to <= s@.len(),
            out@ == old(out)@ + s@.subrange(from as int, k as int),
        decreases to - k,
    {
        push_char(out, s.get_char(k));
        assert(s@.subrange(from as int, k + 1) =~= s@.subrange(from as int, k as int).push(s@[k as int]));
        k = k + 1;
    }
}

/// Replaces every occurrence of `pat` in `s` with `rep`.
pub fn replace_all(s: &str, pat: &str, rep: &str) -> (r: String)
    requires
        pat@.len() > 0,
    ensures
        r@ == replaced(s@, pat@, rep@),
{
    let n = s.unicode_len();
    let m = pat.unicode_len();
    let mut out = String::new();
    let mut i: usize = 0;
    assert(s@.skip(0) =~= s@);
    assert(out@ + replaced(s@, pat@, rep@) =~= replaced(s@, pat@, rep@));
    while i < n
        invariant
            n == s@.len(),
            m == pat@.len(),
            m > 0,
            i <= n,
            out@ + replaced(s@.skip(i as int), pat@, rep@) == replaced(s@, pat@, rep@),
        decreases n - i,
    {
        let t = Ghost(s@.skip(i as int));
        if occurs_at(s, i, pat) {
            out.append(rep);
            assert(t@.skip(m as int) =~= s@.skip(i + m));
            assert(out@ + replaced(s@.skip(i + m), pat@, rep@) =~= replaced(s@, pat@, rep@));
            i = i + m;
        } else {
            push_char(&mut out, s.get_char(i));
            assert(t@.drop_first() =~= s@.skip(i + 1));
            assert(out@ + replaced(s@.skip(i + 1), pat@, rep@) =~= replaced(s@, pat@, rep@));
            i = i + 1;
        }
    }
    assert(s@.skip(i as int) =~= Seq::<char>::empty());
    assert(out@ + replaced(s@.skip(i as int), pat@, rep@) =~= out@);
    out
}

/// `s` without its leading run of `c` (`str::trim_start_matches` with a char).
pub open spec fn trimmed_start(s: Seq<char>, c: char) -> Seq<char>
    decreases s.len(),
{
    if s.len() > 0 && s[0] == c {
        trimmed_start(s.drop_first(), c)
    } else {
        s
    }
}

/// Removes every leading `c` of `s`.
pub fn trim_start_char(s: &str, c: char) -> (r: String)
    ensures
        r@ == trimmed_start(s@, c),
{
    let n = s.unicode_len();
    let mut i: usize = 0;
    assert(s@.skip(0) =~= s@);
    while i < n && s.get_char(i) == c
        invariant
            n == s@.len(),
            i <= n,
            trimmed_start(s@.skip(i as int), c) == trimmed_start(s@, c),
        decreases n - i,
    {
        assert(s@.skip(i as int).drop_first() =~= s@.skip(i + 1));
        i = i + 1;
    }
    let mut out = String::new();
    push_range(&mut out, s, i, n);
    assert(s@.subrange(i as int, n as int) =~= s@.skip(i as int));
    out
}

/// The pieces of `s` between occurrences of `c`, in order, empty pieces
/// included; the text without `c` is one piece (`str::split` with a char).
pub open spec fn split_on(s: Seq<char>, c: char) -> Seq<Seq<char>>
    decreases s.len(),
{
    if s.len() == 0 {
        seq![Seq::<char>::empty()]
    } else if s.last() == c {
        split_on(s.drop_last(), c).push(Seq::empty())
    } else {
        let p = split_on(s.drop_last(), c);
        p.update(p.len() - 1, p.last().push(s.last()))
    }
}

proof fn lemma_split_on_nonempty(s: Seq<char>, c: char)
    ensures
        split_on(s, c).len() >= 1,
    decreases s.len(),
{
    if s.len() > 0 {
        lemma_split_on_nonempty(s.drop_last(), c);
    }
}

/// The texts of a sequence of strings.
pub open spec fn texts(v: Seq<String>) -> Seq<Seq<char>> {
    v.map_values(|x: String| x@)
}

/// Splits `s` at every `c`.
pub fn split_char(s: &str, c: char) -> (parts: Vec<String>)
    ensures
        texts(parts@) == split_on(s@, c),
{
    let n = s.unicode_len();
    let mut parts: Vec<String> = Vec::new();
    let mut cur = String::new();
    let mut i: usize = 0;
    while i < n
        invariant
            n == s@.len(),
            i <= n,
            texts(parts@).push(cur@) == split_on(s@.take(i as int), c),
        decreases n - i,
    {
        let ch = s.get_char(i);
        let ghost pre = s@.take(i as int);
        assert(s@.take(i + 1).drop_last() =~= pre);
        proof {
            lemma_split_on_nonempty(pre, c);
        }
        if ch == c {
            let done = cur;
            parts.push(done);
            cur = String::new();
            assert(texts(parts@).push(cur@) =~= split_on(pre, c).push(Seq::empty()));
        } else {
            push_char(&mut cur, ch);
            let ghost p = split_on(pre, c);
            assert(texts(parts@).push(cur@) =~= p.update(p.len() - 1, p.last().push(ch)));
        }
        i = i + 1;
    }
    assert(s@.take(n as int) =~= s@);
    parts.push(cur);
    assert(texts(parts@) =~= split_on(s@, c));
    parts
}

/// The texts of `parts` with `sep` between each two (`[T]::join`).
pub open spec fn joined(parts: Seq<Seq<char>>, sep: Seq<char>) -> Seq<char>
    decreases parts.len(),
{
    if parts.len() == 0 {
        Seq::empty()
    } else if parts.len() == 1 {
        parts[0]
    } else {
        joined(parts.drop_last(), sep) + sep + parts.last()
    }
}

/// Joins the strings of `parts` with `sep` between them.
pub fn join(parts: &Vec<String>, sep: &str) -> (r: String)
    ensures
        r@ == joined(texts(parts@), sep@),
{
    let mut out = String::new();
    let mut i: usize = 0;
    while i < parts.len()
        invariant
            i <= parts@.len(),
            out@ == joined(texts(parts@).take(i as int), sep@),
        decreases parts@.len() - i,
    {
        let ghost pre = texts(parts@).take(i as int);
        assert(texts(parts@).take(i + 1).drop_last() =~= pre);
        if i > 0 {
            out.append(sep);
        }
        out.append(parts[i].as_str());
        assert(out@ =~= joined(texts(parts@).take(i + 1), sep@));
        i = i + 1;
    }
    assert(texts(parts@).take(i as int) =~= texts(parts@));
    out
}

} // verus!
