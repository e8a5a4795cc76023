//! Splitting text into lines at universal newlines (`\n`, `\r\n` and a
//! lone `\r`).
//!
//! A line is the text between two terminators. The text after the last
//! terminator is a line of its own only when it is not empty, so `"a\n"`
//! has one line and the empty text has none.

use vstd::prelude::*;

verus! {

/// The characters that end a line.
pub open spec fn is_line_break(c: char) -> bool {
    c == '\n' || c == '\r'
}

/// Index of the first line break at or after `i`, or the length of `s`.
pub open spec fn line_end(s: Seq<char>, i: int) -> int
    decreases s.len() - i,
{
    if 0 <= i < s.len() && !is_line_break(s[i]) {
        line_end(s, i + 1)
    } else {
        i
    }
}

/// Length of the terminator that starts at `e`: two for `\r\n`, one for
/// another line break, zero at the end of the text.
pub open spec fn terminator_len(s: Seq<char>, e: int) -> int {
    if e < 0 || e >= s.len() {
        0
    } else if s[e] == '\r' && e + 1 < s.len() && s[e + 1] == '\n' {
        2
    } else {
        1
    }
}

/// Where the line after the one that starts at `i` begins.
pub open spec fn line_next(s: Seq<char>, i: int) -> int {
    line_end(s, i) + terminator_len(s, line_end(s, i))
}

/// Position of one line: its content is `start..end`, its terminator
/// `end..full_end`.
pub struct LineSpan {
    pub start: int,
    pub end: int,
    pub full_end: int,
}

/// Spans of the lines that start at or after position `i`.
pub open spec fn spans_from(s: Seq<char>, i: int) -> Seq<LineSpan>
    decreases s.len() - i,
{
    if 0 <= i < s.len() {
        proof {
            lemma_line_end(s, i);
        }
        seq![LineSpan { start: i, end: line_end(s, i), full_end: line_next(s, i) }] + spans_from(
            s,
            line_next(s, i),
        )
    } else {
        seq![]
    }
}

/// Spans of all lines of `s`.
pub open spec fn line_spans(s: Seq<char>) -> Seq<LineSpan> {
    spans_from(s, 0)
}

/// The content of each line of `s`, without its terminator.
pub open spec fn lines(s: Seq<char>) -> Seq<Seq<char>> {
    line_spans(s).map_values(|sp: LineSpan| s.subrange(sp.start, sp.end))
}

/// The contents of the lines that start at or after position `i`.
pub open spec fn lines_at(s: Seq<char>, i: int) -> Seq<Seq<char>> {
    spans_from(s, i).map_values(|sp: LineSpan| s.subrange(sp.start, sp.end))
}

/// Whether `t` holds no line break.
pub open spec fn no_line_break(t: Seq<char>) -> bool {
    forall|j: int| 0 <= j < t.len() ==> !is_line_break(#[trigger] t[j])
}

/// `line_end` stays within the text, stops at a line break, and passes
/// over no line break.
pub proof fn lemma_line_end(s: Seq<char>, i: int)
    requires
        0 <= i <= s.len(),
    ensures
        i <= line_end(s, i) <= s.len(),
        line_end(s, i) < s.len() ==> is_line_break(s[line_end(s, i)]),
        forall|j: int| i <= j < line_end(s, i) ==> !is_line_break(#[trigger] s[j]),
        i < s.len() ==> i < line_next(s, i) <= s.len(),
    decreases s.len() - i,
{
    if i < s.len() && !is_line_break(s[i]) {
        lemma_line_end(s, i + 1);
    }
}

/// Every span lies within the text, in order, and holds no line break.
pub proof fn lemma_spans_from(s: Seq<char>, i: int)
    requires
        0 <= i <= s.len(),
    ensures
        forall|k: int|
            0 <= k < spans_from(s, i).len() ==> {
                let sp = #[trigger] spans_from(s, i)[k];
                &&& i <= sp.start <= sp.end <= sp.full_end <= s.len()
                &&& sp.start < sp.full_end
                &&& no_line_break(s.subrange(sp.start, sp.end))
                &&& sp.end == line_end(s, sp.start)
                &&& sp.full_end == line_next(s, sp.start)
            },
    decreases s.len() - i,
{
    if i < s.len() {
        lemma_line_end(s, i);
        let n = line_next(s, i);
        lemma_spans_from(s, n);
        let rest = spans_from(s, n);
        assert forall|k: int| 0 <= k < spans_from(s, i).len() implies {
            let sp = #[trigger] spans_from(s, i)[k];
            &&& i <= sp.start <= sp.end <= sp.full_end <= s.len()
                &&& sp.start < sp.full_end
            &&& no_line_break(s.subrange(sp.start, sp.end))
            &&& sp.end == line_end(s, sp.start)
            &&& sp.full_end == line_next(s, sp.start)
        } by {
            if k > 0 {
                assert(spans_from(s, i)[k] == rest[k - 1]);
            } else {
                let sp = spans_from(s, i)[k];
                assert forall|j: int| 0 <= j < s.subrange(sp.start, sp.end).len() implies !is_line_break(
                    #[trigger] s.subrange(sp.start, sp.end)[j],
                ) by {
                    assert(s.subrange(sp.start, sp.end)[j] == s[i + j]);
                }
            }
        }
    }
}

/// `lines_at` unfolds by one line.
pub proof fn lemma_lines_at_unfold(s: Seq<char>, i: int)
    requires
        0 <= i < s.len(),
    ensures
        lines_at(s, i) == seq![s.subrange(i, line_end(s, i))] + lines_at(s, line_next(s, i)),
{
    lemma_line_end(s, i);
    let rest = spans_from(s, line_next(s, i));
    let sp = LineSpan { start: i, end: line_end(s, i), full_end: line_next(s, i) };
    assert(spans_from(s, i) == seq![sp] + rest);
    assert(lines_at(s, i) =~= seq![s.subrange(i, line_end(s, i))] + lines_at(
        s,
        line_next(s, i),
    ));
}

/// Text put in front of `q` moves its line ends by its length.
pub proof fn lemma_line_end_shift(p: Seq<char>, q: Seq<char>, j: int)
    requires
        0 <= j <= q.len(),
    ensures
        line_end(p + q, p.len() + j) == p.len() + line_end(q, j),
    decreases q.len() - j,
{
    if j < q.len() {
        assert((p + q)[p.len() + j] == q[j]);
        if !is_line_break(q[j]) {
            lemma_line_end_shift(p, q, j + 1);
        }
    }
}

/// Text put in front of `q` leaves the contents of its lines unchanged.
pub proof fn lemma_lines_at_shift(p: Seq<char>, q: Seq<char>, j: int)
    requires
        0 <= j <= q.len(),
    ensures
        lines_at(p + q, p.len() + j) == lines_at(q, j),
    decreases q.len() - j,
{
    let x = p + q;
    if j < q.len() {
        lemma_line_end_shift(p, q, j);
        lemma_line_end(q, j);
        let e = line_end(q, j);
        if e < q.len() {
            assert(x[p.len() + e] == q[e]);
        }
        if e + 1 < q.len() {
            assert(x[p.len() + e + 1] == q[e + 1]);
        }
        assert(terminator_len(x, p.len() + e) == terminator_len(q, e));
        lemma_lines_at_unfold(x, p.len() + j);
        lemma_lines_at_unfold(q, j);
        lemma_lines_at_shift(p, q, line_next(q, j));
        assert(x.subrange(p.len() + j, p.len() + e) =~= q.subrange(j, e));
    } else {
        assert(lines_at(x, p.len() + j) =~= Seq::<Seq<char>>::empty());
        assert(lines_at(q, j) =~= Seq::<Seq<char>>::empty());
    }
}

/// Text after a line break leaves the line ends before it unchanged.
pub proof fn lemma_line_end_prefix(a: Seq<char>, b: Seq<char>, i: int)
    requires
        0 <= i <= a.len(),
        line_end(a, i) < a.len(),
    ensures
        line_end(a + b, i) == line_end(a, i),
    decreases a.len() - i,
{
    assert((a + b)[i] == a[i]);
    if !is_line_break(a[i]) {
        lemma_line_end_prefix(a, b, i + 1);
    }
}

/// Text that ends with a line break keeps its lines when more text
/// follows it, unless a `\r` at its end and a `\n` at the start of the
/// rest would join into one terminator.
pub proof fn lemma_lines_at_append(a: Seq<char>, b: Seq<char>, i: int)
    requires
        a.len() > 0,
        is_line_break(a.last()),
        !(a.last() == '\r' && b.len() > 0 && b[0] == '\n'),
        0 <= i <= a.len(),
    ensures
        lines_at(a + b, i) == lines_at(a, i) + lines(b),
    decreases a.len() - i,
{
    let x = a + b;
    if i < a.len() {
        lemma_line_end(a, i);
        if line_end(a, i) == a.len() {
            assert(line_end(a, i) >= a.len() - 1);
            assert(is_line_break(a[a.len() - 1]));
            assert(false);
        }
        lemma_line_end_prefix(a, b, i);
        let e = line_end(a, i);
        assert(x[e] == a[e]);
        if e + 1 < a.len() {
            assert(x[e + 1] == a[e + 1]);
        } else if b.len() > 0 {
            assert(x[e + 1] == b[0]);
        }
        assert(terminator_len(x, e) == terminator_len(a, e));
        lemma_lines_at_unfold(x, i);
        lemma_lines_at_unfold(a, i);
        lemma_lines_at_append(a, b, line_next(a, i));
        assert(x.subrange(i, e) =~= a.subrange(i, e));
        assert(lines_at(x, i) =~= lines_at(a, i) + lines(b));
    } else {
        lemma_lines_at_shift(a, b, 0);
        assert(lines_at(a, i) =~= Seq::<Seq<char>>::empty());
        assert(lines_at(x, i) =~= lines_at(a, i) + lines(b));
    }
}

/// A line without a break, ended by `\n`, is one line.
pub proof fn lemma_lines_single(t: Seq<char>)
    requires
        no_line_break(t),
    ensures
        lines(t.push('\n')) == seq![t],
{
    let x = t.push('\n');
    assert forall|j: int| 0 <= j < t.len() implies !is_line_break(#[trigger] x[j]) by {
        assert(x[j] == t[j]);
    }
    lemma_line_end_stops(x, 0, t.len() as int);
    lemma_lines_at_unfold(x, 0);
    assert(x.subrange(0, t.len() as int) =~= t);
    assert(lines_at(x, t.len() + 1int) =~= Seq::<Seq<char>>::empty());
    assert(lines(x) =~= lines_at(x, 0));
}

/// A line without a break, ended by one terminator (`\n`, `\r\n` or `\r`),
/// is one line.
pub proof fn lemma_lines_terminated(p: Seq<char>, t: Seq<char>)
    requires
        no_line_break(p),
        t == seq!['\n'] || t == seq!['\r', '\n'] || t == seq!['\r'],
    ensures
        lines(p + t) == seq![p],
{
    let x = p + t;
    assert forall|j: int| 0 <= j < p.len() implies !is_line_break(#[trigger] x[j]) by {
        assert(x[j] == p[j]);
    }
    assert(x[p.len() as int] == t[0]);
    if t.len() == 2 {
        assert(x[p.len() + 1int] == t[1]);
    }
    lemma_line_end_stops(x, 0, p.len() as int);
    lemma_lines_at_unfold(x, 0);
    assert(line_next(x, 0) == x.len());
    assert(x.subrange(0, p.len() as int) =~= p);
    assert(lines_at(x, x.len() as int) =~= Seq::<Seq<char>>::empty());
    assert(lines(x) =~= lines_at(x, 0));
}

/// The text `s` with each `\n` written as `t`.
pub open spec fn with_line_endings(s: Seq<char>, t: Seq<char>) -> Seq<char>
    decreases s.len(),
{
    if s.len() == 0 {
        seq![]
    } else {
        (if s[0] == '\n' {
            t
        } else {
            seq![s[0]]
        }) + with_line_endings(s.drop_first(), t)
    }
}

proof fn lemma_with_line_endings_append(a: Seq<char>, b: Seq<char>, t: Seq<char>)
    ensures
        with_line_endings(a + b, t) == with_line_endings(a, t) + with_line_endings(b, t),
    decreases a.len(),
{
    if a.len() == 0 {
        assert(a + b =~= b);
        assert(with_line_endings(a, t) + with_line_endings(b, t) =~= with_line_endings(b, t));
    } else {
        assert((a + b)[0] == a[0]);
        assert((a + b).drop_first() =~= a.drop_first() + b);
        lemma_with_line_endings_append(a.drop_first(), b, t);
        let h = if a[0] == '\n' {
            t
        } else {
            seq![a[0]]
        };
        assert(h + (with_line_endings(a.drop_first(), t) + with_line_endings(b, t)) =~= (h
            + with_line_endings(a.drop_first(), t)) + with_line_endings(b, t));
    }
}

proof fn lemma_with_line_endings_plain(p: Seq<char>, t: Seq<char>)
    requires
        forall|j: int| 0 <= j < p.len() ==> #[trigger] p[j] != '\n',
    ensures
        with_line_endings(p, t) == p,
    decreases p.len(),
{
    if p.len() > 0 {
        let q = p.drop_first();
        assert forall|j: int| 0 <= j < q.len() implies #[trigger] q[j] != '\n' by {
            assert(q[j] == p[j + 1]);
        }
        lemma_with_line_endings_plain(q, t);
        assert(seq![p[0]] + q =~= p);
    }
}

proof fn lemma_with_cr_endings_no_lf(s: Seq<char>)
    ensures
        forall|j: int|
            0 <= j < with_line_endings(s, seq!['\r']).len() ==> #[trigger] with_line_endings(
                s,
                seq!['\r'],
            )[j] != '\n',
    decreases s.len(),
{
    if s.len() > 0 {
        lemma_with_cr_endings_no_lf(s.drop_first());
        let h = if s[0] == '\n' {
            seq!['\r']
        } else {
            seq![s[0]]
        };
        let r = with_line_endings(s.drop_first(), seq!['\r']);
        assert forall|j: int| 0 <= j < (h + r).len() implies #[trigger] (h + r)[j] != '\n' by {
            if j >= h.len() {
                assert((h + r)[j] == r[j - h.len()]);
            }
        }
    }
}

/// Writing the line breaks of a text as `\r\n` or as `\r` in place of
/// `\n` leaves its lines unchanged.
pub proof fn lemma_lines_line_endings(s: Seq<char>, t: Seq<char>)
    requires
        forall|j: int| 0 <= j < s.len() ==> #[trigger] s[j] != '\r',
        t == seq!['\r', '\n'] || t == seq!['\r'],
    ensures
        lines(with_line_endings(s, t)) == lines(s),
    decreases s.len(),
{
    if s.len() == 0 {
        assert(with_line_endings(s, t) =~= s);
    } else {
        lemma_line_end(s, 0);
        let e = line_end(s, 0);
        if e == s.len() {
            assert forall|j: int| 0 <= j < s.len() implies #[trigger] s[j] != '\n' by {
                assert(!is_line_break(s[j]));
            }
            lemma_with_line_endings_plain(s, t);
        } else {
            let p = s.take(e);
            let q = s.skip(e + 1);
            let nl = seq!['\n'];
            assert(s[e] == '\n');
            assert(s =~= (p + nl) + q);
            assert forall|j: int| 0 <= j < p.len() implies !is_line_break(#[trigger] p[j]) by {
                assert(p[j] == s[j]);
            }
            assert forall|j: int| 0 <= j < p.len() implies #[trigger] p[j] != '\n' by {
                assert(!is_line_break(p[j]));
            }
            assert forall|j: int| 0 <= j < q.len() implies #[trigger] q[j] != '\r' by {
                assert(q[j] == s[e + 1 + j]);
            }
            // The lines of `s`.
            lemma_lines_terminated(p, nl);
            lemma_lines_at_append(p + nl, q, 0);
            assert(lines(s) == seq![p] + lines(q));
            // The lines of the rewritten text.
            lemma_with_line_endings_append(p + nl, q, t);
            lemma_with_line_endings_append(p, nl, t);
            lemma_with_line_endings_plain(p, t);
            assert(nl.drop_first() =~= Seq::<char>::empty());
            assert(with_line_endings(nl.drop_first(), t) =~= Seq::<char>::empty());
            assert(with_line_endings(nl, t) =~= t);
            let wq = with_line_endings(q, t);
            assert(with_line_endings(s, t) == (p + t) + wq);
            lemma_lines_terminated(p, t);
            if t == seq!['\r'] {
                lemma_with_cr_endings_no_lf(q);
                if wq.len() > 0 {
                    assert(wq[0] != '\n');
                }
            }
            assert((p + t).last() == t.last());
            lemma_lines_at_append(p + t, wq, 0);
            lemma_lines_line_endings(q, t);
        }
    }
}

/// `line_end` runs to the first line break.
pub proof fn lemma_line_end_stops(s: Seq<char>, i: int, e: int)
    requires
        0 <= i <= e < s.len(),
        is_line_break(s[e]),
        forall|j: int| i <= j < e ==> !is_line_break(#[trigger] s[j]),
    ensures
        line_end(s, i) == e,
    decreases e - i,
{
    if i < e {
        lemma_line_end_stops(s, i + 1, e);
    }
}

/// Finds `line_end(s, i)`.
pub fn find_line_end(s: &Vec<char>, i: usize) -> (e: usize)
    requires
        i <= s.len(),
    ensures
        e == line_end(s@, i as int),
        i <= e <= s@.len(),
{
    let mut j = i;
    while j < s.len() && !(s[j] == '\n' || s[j] == '\r')
        invariant
            i <= j <= s.len(),
            line_end(s@, j as int) == line_end(s@, i as int),
        decreases s.len() - j,
    {
        j = j + 1;
    }
    j
}

/// Finds where the next line begins, given the end `e` of a line's content.
pub fn skip_terminator(s: &Vec<char>, e: usize) -> (n: usize)
    requires
        e <= s.len(),
    ensures
        n == e + terminator_len(s@, e as int),
{
    if e >= s.len() {
        e
    } else if s[e] == '\r' && e + 1 < s.len() && s[e + 1] == '\n' {
        e + 2
    } else {
        e + 1
    }
}

/// Copies `s[from..to]`.
pub fn copy_range(s: &Vec<char>, from: usize, to: usize) -> (r: Vec<char>)
    requires
        from <= to <= s.len(),
    ensures
        r@ == s@.subrange(from as int, to as int),
{
    let mut r: Vec<char> = Vec::new();
    let mut j = from;
    while j < to
        invariant
            from <= j <= to <= s.len(),
            r@ == s@.subrange(from as int, j as int),
        decreases to - j,
    {
        r.push(s[j]);
        j = j + 1;
    }
    r
}

} // verus!
