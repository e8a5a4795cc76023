//! Python console sessions (`>>>` prompts) in code blocks: finding the code
//! of each prompt, and writing formatted code back with prompts.

use vstd::prelude::*;
use crate::blocks::{apply_edits, is_rewrite, edit_views, edits_wf, spliced, Edit, EditView};
use crate::lines::{
    copy_range, find_line_end, lemma_line_end, lemma_spans_from, line_spans, skip_terminator,
    spans_from, LineSpan,
};
use crate::text::{chars_of, push_chars, push_range, range_eq, string_of};
use crate::unicode::{is_white_space, white_space};
use crate::MarkdownResult;

verus! {

/// The first line of a prompt starts with this.
pub open spec fn prompt_word() -> Seq<char> {
    seq!['>', '>', '>', ' ']
}

/// A continuation line starts with this.
pub open spec fn dots_word() -> Seq<char> {
    seq!['.', '.', '.']
}

/// Whether `l` starts with `w`.
pub open spec fn starts_with(l: Seq<char>, w: Seq<char>) -> bool {
    w.len() <= l.len() && l.subrange(0, w.len() as int) == w
}

/// Whether `l` is `...` followed only by white space.
pub open spec fn dots_only(l: Seq<char>) -> bool {
    &&& starts_with(l, dots_word())
    &&& forall|j: int| 3 <= j < l.len() ==> is_white_space(#[trigger] l[j])
}

/// One prompt of a console session: its lines are `start..end` of the
/// session, `code` is their code without the prompt markers.
pub struct PyconPrompt {
    pub start: usize,
    pub end: usize,
    pub code: String,
}

/// The mathematical content of a `PyconPrompt`.
pub struct PromptView {
    pub start: int,
    pub end: int,
    pub code: Seq<char>,
}

impl View for PyconPrompt {
    type V = PromptView;

    open spec fn view(&self) -> PromptView {
        PromptView { start: self.start as int, end: self.end as int, code: self.code@ }
    }
}

/// The state of the prompt scan between two lines.
pub struct PromptScan {
    /// The prompt being read, if any.
    pub current: Option<PromptView>,
    /// Whether some continuation line has a non-ASCII fourth character
    /// and more than white space after its dots.
    pub splits_char: bool,
}

/// One line of the prompt scan, for the line at `sp` of session `c`: the
/// new state and the prompt that the line ends, if any.
///
/// A line that starts with `...` continues the current prompt: when it
/// holds only white space after the dots, only its line ending is code;
/// otherwise its code starts at its fifth character. Any other line ends
/// the current prompt, and starts a new one when it begins with `>>> `;
/// the code of that line starts at its fifth character.
pub open spec fn prompt_step(st: PromptScan, c: Seq<char>, sp: LineSpan) -> (
    PromptScan,
    Option<PromptView>,
) {
    let l = c.subrange(sp.start, sp.end);
    if st.current is Some && starts_with(l, dots_word()) {
        let p = st.current->0;
        let from = if dots_only(l) {
            sp.end
        } else {
            sp.start + 4
        };
        (
            PromptScan {
                current: Some(
                    PromptView {
                        start: p.start,
                        end: sp.full_end,
                        code: p.code + c.subrange(from, sp.full_end),
                    },
                ),
                splits_char: st.splits_char || (!dots_only(l) && (l[3] as u32) >= 0x80),
            },
            None,
        )
    } else {
        (
            PromptScan {
                current: if starts_with(l, prompt_word()) {
                    Some(
                        PromptView {
                            start: sp.start,
                            end: sp.full_end,
                            code: c.subrange(sp.start + 4, sp.full_end),
                        },
                    )
                } else {
                    None
                },
                splits_char: st.splits_char,
            },
            st.current,
        )
    }
}

/// The prompt scan over the given lines of `c`.
pub open spec fn prompt_run(c: Seq<char>, sps: Seq<LineSpan>) -> (PromptScan, Seq<PromptView>)
    decreases sps.len(),
{
    if sps.len() == 0 {
        (PromptScan { current: None, splits_char: false }, seq![])
    } else {
        let (st, found) = prompt_run(c, sps.drop_last());
        let (st2, p) = prompt_step(st, c, sps.last());
        (
            st2,
            match p {
                Some(v) => found.push(v),
                None => found,
            },
        )
    }
}

/// The prompts of a console session, in order.
pub open spec fn pycon_prompts(c: Seq<char>) -> Seq<PromptView> {
    let (st, found) = prompt_run(c, line_spans(c));
    match st.current {
        Some(p) => found.push(p),
        None => found,
    }
}

/// Whether the code of some continuation line would start inside a
/// character when counted in bytes.
pub open spec fn pycon_splits_char(c: Seq<char>) -> bool {
    prompt_run(c, line_spans(c)).0.splits_char
}

/// The prompts lie in order within the session.
pub open spec fn prompts_wf(c: Seq<char>, ps: Seq<PromptView>) -> bool {
    &&& forall|i: int| 0 <= i < ps.len() ==> 0 <= (#[trigger] ps[i]).start <= ps[i].end <= c.len()
    &&& forall|i: int, j: int| 0 <= i < j < ps.len() ==> ps[i].end <= ps[j].start
}

/// The views of a vector of prompts.
pub open spec fn prompt_views(v: Seq<PyconPrompt>) -> Seq<PromptView> {
    v.map_values(|p: PyconPrompt| p@)
}


/// Decides `starts_with` for `l` and a word.
fn starts_with_exec(l: &[char], w: &[char]) -> (b: bool)
    ensures
        b == starts_with(l@, w@),
{
    if w.len() > l.len() {
        return false;
    }
    range_eq(l, 0, w.len(), w)
}

/// Decides `dots_only`.
fn dots_only_exec(l: &[char]) -> (b: bool)
    ensures
        b == dots_only(l@),
{
    let dots: [char; 3] = ['.', '.', '.'];
    assert(dots@ == dots_word());
    if !starts_with_exec(l, &dots) {
        return false;
    }
    let mut j: usize = 3;
    while j < l.len()
        invariant
            3 <= j <= l@.len(),
            starts_with(l@, dots_word()),
            forall|k: int| 3 <= k < j ==> is_white_space(#[trigger] l@[k]),
        decreases l@.len() - j,
    {
        if !white_space(l[j]) {
            return false;
        }
        j = j + 1;
    }
    true
}

/// The prompt held by the executable variables.
pub open spec fn current_of(cur: Option<(usize, usize, Vec<char>)>) -> Option<PromptView> {
    match cur {
        Some(t) => Some(PromptView { start: t.0 as int, end: t.1 as int, code: t.2@ }),
        None => None,
    }
}

/// The prompt scan over a whole session: the prompts, and whether the
/// code of some continuation line would start inside a character.
fn scan_prompts(code: &str) -> (r: (Vec<PyconPrompt>, bool))
    ensures
        prompt_views(r.0@) == pycon_prompts(code@),
        prompts_wf(code@, pycon_prompts(code@)),
        r.1 == pycon_splits_char(code@),
{
    let c = chars_of(code);
    let mut found: Vec<PyconPrompt> = Vec::new();
    let mut cur: Option<(usize, usize, Vec<char>)> = None;
    let mut splits = false;
    let mut pos: usize = 0;
    let ghost mut k: int = 0;
    let prompt: [char; 4] = ['>', '>', '>', ' '];
    let dots: [char; 3] = ['.', '.', '.'];
    assert(prompt@ == prompt_word());
    assert(dots@ == dots_word());
    proof {
        assert(line_spans(c@).take(0) =~= Seq::<LineSpan>::empty());
        assert(line_spans(c@).skip(0) =~= line_spans(c@));
        assert(prompt_views(found@) =~= Seq::<PromptView>::empty());
    }
    while pos < c.len()
        invariant
            pos <= c@.len(),
            c@ == code@,
            prompt@ == prompt_word(),
            dots@ == dots_word(),
            0 <= k <= line_spans(c@).len(),
            spans_from(c@, pos as int) == line_spans(c@).skip(k),
            prompt_run(c@, line_spans(c@).take(k)) == (
                PromptScan { current: current_of(cur), splits_char: splits },
                prompt_views(found@),
            ),
            prompts_wf(c@, prompt_views(found@)),
            forall|i: int| 0 <= i < found@.len() ==> (#[trigger] found@[i]).end <= pos,
            cur matches Some(t) ==> t.0 <= t.1 == pos && forall|i: int|
                0 <= i < found@.len() ==> (#[trigger] found@[i]).end <= t.0,
        decreases c@.len() - pos,
    {
        let e = find_line_end(&c, pos);
        let next = skip_terminator(&c, e);
        proof {
            lemma_line_end(c@, pos as int);
        }
        let line = copy_range(&c, pos, e);
        let l = line.as_slice();
        let ghost sp = LineSpan { start: pos as int, end: e as int, full_end: next as int };
        let ghost st = PromptScan { current: current_of(cur), splits_char: splits };
        let ghost found0 = prompt_views(found@);
        proof {
            assert(spans_from(c@, pos as int) == seq![sp] + spans_from(c@, next as int));
            assert(line_spans(c@).skip(k)[0] == sp);
            assert(line_spans(c@)[k] == sp);
            assert(line_spans(c@).skip(k + 1) =~= line_spans(c@).skip(k).drop_first());
            assert(line_spans(c@).take(k + 1).drop_last() =~= line_spans(c@).take(k));
            assert(line_spans(c@).take(k + 1).last() == sp);
            assert(c@.subrange(sp.start, sp.end) == l@);
        }
        if cur.is_some() && starts_with_exec(l, &dots) {
            let only = dots_only_exec(l);
            let from = if only {
                e
            } else {
                pos + 4
            };
            if !only && (l[3] as u32) >= 0x80 {
                splits = true;
            }
            let piece = copy_range(&c, from, next);
            match cur {
                Some((start, _end, mut text)) => {
                    let ghost t0 = text@;
                    let mut j: usize = 0;
                    while j < piece.len()
                        invariant
                            0 <= j <= piece@.len(),
                            text@ == t0 + piece@.subrange(0, j as int),
                        decreases piece@.len() - j,
                    {
                        text.push(piece[j]);
                        proof {
                            assert(piece@.subrange(0, j + 1) =~= piece@.subrange(
                                0,
                                j as int,
                            ).push(piece@[j as int]));
                        }
                        j = j + 1;
                    }
                    assert(piece@.subrange(0, piece@.len() as int) =~= piece@);
                    cur = Some((start, next, text));
                },
                None => {},
            }
        } else {
            match cur {
                Some((start, end, text)) => {
                    found.push(PyconPrompt { start, end, code: string_of(text.as_slice()) });
                    proof {
                        assert(prompt_views(found@) =~= found0.push(found@.last()@));
                    }
                },
                None => {},
            }
            if starts_with_exec(l, &prompt) {
                cur = Some((pos, next, copy_range(&c, pos + 4, next)));
            } else {
                cur = None;
            }
        }
        proof {
            let (st2, p) = prompt_step(st, c@, sp);
            assert(st2 == PromptScan { current: current_of(cur), splits_char: splits });
            assert(prompt_views(found@) == match p {
                Some(v) => found0.push(v),
                None => found0,
            });
        }
        pos = next;
        proof {
            k = k + 1;
        }
    }
    proof {
        assert(line_spans(c@).skip(k).len() == 0);
        assert(line_spans(c@).take(k) =~= line_spans(c@));
    }
    let ghost found0 = prompt_views(found@);
    match cur {
        Some((start, end, text)) => {
            found.push(PyconPrompt { start, end, code: string_of(text.as_slice()) });
            proof {
                assert(prompt_views(found@) =~= found0.push(found@.last()@));
            }
        },
        None => {},
    }
    (found, splits)
}

/// The prompts of a console session: for each `>>> ` line and the `...`
/// lines that follow it, their lines and their code without the markers.
pub fn find_prompts(code: &str) -> (r: Vec<PyconPrompt>)
    requires
        !pycon_splits_char(code@),
    ensures
        prompt_views(r@) == pycon_prompts(code@),
        prompts_wf(code@, pycon_prompts(code@)),
{
    scan_prompts(code).0
}

/// Whether some continuation line of a console session would have its
/// code start inside a character when counted in bytes (`find_prompts`
/// excludes such sessions).
pub fn prompts_split_char(code: &str) -> (r: bool)
    ensures
        r == pycon_splits_char(code@),
{
    scan_prompts(code).1
}


/// The marker put in front of a line of formatted code: `>>> ` on the
/// first line, `...` on an empty line, `... ` on any other line.
pub open spec fn prompt_prefix(first: bool, content: Seq<char>) -> Seq<char> {
    if first {
        prompt_word()
    } else if content.len() == 0 {
        dots_word()
    } else {
        seq!['.', '.', '.', ' ']
    }
}

/// The given lines of `f`, each with its terminator and its marker.
pub open spec fn prefixed_lines(f: Seq<char>, sps: Seq<LineSpan>) -> Seq<char>
    decreases sps.len(),
{
    if sps.len() == 0 {
        seq![]
    } else {
        let sp = sps.last();
        prefixed_lines(f, sps.drop_last()) + prompt_prefix(
            sps.len() == 1,
            f.subrange(sp.start, sp.end),
        ) + f.subrange(sp.start, sp.full_end)
    }
}

/// Formatted code written as a console session.
pub open spec fn with_prompts(f: Seq<char>) -> Seq<char> {
    prefixed_lines(f, line_spans(f))
}

/// Writes formatted code as a console session: `with_prompts`.
pub fn prompted(formatted: &str) -> (r: String)
    ensures
        r@ == with_prompts(formatted@),
{
    let f = chars_of(formatted);
    let mut out = String::new();
    let mut pos: usize = 0;
    let ghost mut k: int = 0;
    let first: [char; 4] = ['>', '>', '>', ' '];
    let empty: [char; 3] = ['.', '.', '.'];
    let other: [char; 4] = ['.', '.', '.', ' '];
    proof {
        assert(line_spans(f@).take(0) =~= Seq::<LineSpan>::empty());
        assert(line_spans(f@).skip(0) =~= line_spans(f@));
    }
    while pos < f.len()
        invariant
            pos <= f@.len(),
            first@ == prompt_word(),
            empty@ == dots_word(),
            other@ == seq!['.', '.', '.', ' '],
            0 <= k <= line_spans(f@).len(),
            spans_from(f@, pos as int) == line_spans(f@).skip(k),
            out@ == prefixed_lines(f@, line_spans(f@).take(k)),
        decreases f@.len() - pos,
    {
        let e = find_line_end(&f, pos);
        let next = skip_terminator(&f, e);
        proof {
            lemma_line_end(f@, pos as int);
        }
        let ghost sp = LineSpan { start: pos as int, end: e as int, full_end: next as int };
        proof {
            assert(spans_from(f@, pos as int) == seq![sp] + spans_from(f@, next as int));
            assert(line_spans(f@).skip(k)[0] == sp);
            assert(line_spans(f@)[k] == sp);
            assert(line_spans(f@).skip(k + 1) =~= line_spans(f@).skip(k).drop_first());
            assert(line_spans(f@).take(k + 1).drop_last() =~= line_spans(f@).take(k));
            assert(line_spans(f@).take(k + 1).last() == sp);
        }
        if pos == 0 {
            push_chars(&mut out, &first);
        } else if e == pos {
            push_chars(&mut out, &empty);
        } else {
            push_chars(&mut out, &other);
        }
        push_range(&mut out, f.as_slice(), pos, next);
        proof {
            if k == 0 {
                assert(pos == 0);
            } else {
                lemma_spans_from(f@, 0);
                assert(line_spans(f@)[0].start < line_spans(f@)[0].full_end);
                lemma_span_starts_after_first(f@, k);
                assert(pos > 0);
            }
            assert(f@.subrange(sp.start, sp.end).len() == e - pos);
        }
        pos = next;
        proof {
            k = k + 1;
        }
    }
    proof {
        assert(line_spans(f@).skip(k).len() == 0);
        assert(line_spans(f@).take(k) =~= line_spans(f@));
    }
    out
}

/// Every line after the first starts after position 0.
proof fn lemma_span_starts_after_first(f: Seq<char>, k: int)
    requires
        0 < k < line_spans(f).len(),
    ensures
        line_spans(f)[k].start > 0,
{
    lemma_spans_from(f, 0);
    assert(f.len() > 0);
    lemma_line_end(f, 0);
    let n = crate::lines::line_next(f, 0);
    assert(line_spans(f) == seq![line_spans(f)[0]] + spans_from(f, n));
    lemma_spans_from(f, n);
    assert(line_spans(f)[k] == spans_from(f, n)[k - 1]);
}

/// The views of the formatter results of the prompts.
pub open spec fn result_views(rs: Seq<Option<String>>) -> Seq<Option<Seq<char>>> {
    rs.map_values(
        |o: Option<String>|
            match o {
                Some(t) => Some(t@),
                None => None,
            },
    )
}

/// The edits that write formatted prompts back: one for each prompt
/// whose formatter result exists and differs from its code, replacing its
/// lines by the result written with markers.
pub open spec fn pycon_edits(ps: Seq<PromptView>, rs: Seq<Option<Seq<char>>>) -> Seq<EditView>
    decreases ps.len(),
{
    if ps.len() == 0 {
        seq![]
    } else {
        let prev = pycon_edits(ps.drop_last(), rs.drop_last());
        let p = ps.last();
        match rs.last() {
            Some(f) => if f != p.code {
                prev.push(EditView { start: p.start, end: p.end, replacement: with_prompts(f) })
            } else {
                prev
            },
            None => prev,
        }
    }
}

/// Whether prompt `i` is rewritten: its formatter result exists and
/// differs from its code.
pub open spec fn is_rewritten(ps: Seq<PromptView>, rs: Seq<Option<Seq<char>>>, i: int) -> bool {
    rs[i] matches Some(f) && f != ps[i].code
}

/// How many of the first `i` prompts are rewritten.
pub open spec fn rewrite_count(ps: Seq<PromptView>, rs: Seq<Option<Seq<char>>>, i: int) -> nat
    decreases i,
{
    if i <= 0 {
        0
    } else {
        rewrite_count(ps, rs, i - 1) + if is_rewritten(ps, rs, i - 1) {
            1nat
        } else {
            0nat
        }
    }
}

/// The edits for a console session are, in prompt order, one per
/// rewritten prompt: the edit for prompt `i` is the one after those of
/// the prompts before it, and it replaces exactly the lines
/// `ps[i].start..ps[i].end` of that prompt by its formatted code written
/// with markers.
pub proof fn lemma_pycon_edits_positions(ps: Seq<PromptView>, rs: Seq<Option<Seq<char>>>)
    requires
        ps.len() == rs.len(),
    ensures
        pycon_edits(ps, rs).len() == rewrite_count(ps, rs, ps.len() as int),
        forall|i: int|
            0 <= i < ps.len() && is_rewritten(ps, rs, i) ==> #[trigger] pycon_edits(ps, rs)[rewrite_count(
                ps,
                rs,
                i,
            ) as int] == (EditView {
                start: ps[i].start,
                end: ps[i].end,
                replacement: with_prompts(rs[i]->0),
            }),
    decreases ps.len(),
{
    if ps.len() > 0 {
        let n = ps.len() - 1;
        let fp = ps.drop_last();
        let fr = rs.drop_last();
        lemma_pycon_edits_positions(fp, fr);
        lemma_rewrite_count_prefix(ps, rs, fp, fr, n);
        assert forall|i: int| 0 <= i < ps.len() && is_rewritten(ps, rs, i) implies #[trigger] pycon_edits(
            ps,
            rs,
        )[rewrite_count(ps, rs, i) as int] == (EditView {
            start: ps[i].start,
            end: ps[i].end,
            replacement: with_prompts(rs[i]->0),
        }) by {
            if i < n {
                lemma_rewrite_count_prefix(ps, rs, fp, fr, i);
                lemma_rewrite_count_mono(fp, fr, i + 1, n);
                assert(fp[i] == ps[i]);
                assert(fr[i] == rs[i]);
                assert(is_rewritten(fp, fr, i));
            }
        }
    }
}

proof fn lemma_rewrite_count_prefix(
    ps: Seq<PromptView>,
    rs: Seq<Option<Seq<char>>>,
    fp: Seq<PromptView>,
    fr: Seq<Option<Seq<char>>>,
    i: int,
)
    requires
        fp.len() <= ps.len(),
        fr.len() <= rs.len(),
        forall|j: int| 0 <= j < fp.len() ==> fp[j] == ps[j],
        forall|j: int| 0 <= j < fr.len() ==> fr[j] == rs[j],
        0 <= i <= fp.len(),
        i <= fr.len(),
    ensures
        rewrite_count(fp, fr, i) == rewrite_count(ps, rs, i),
    decreases i,
{
    if i > 0 {
        lemma_rewrite_count_prefix(ps, rs, fp, fr, i - 1);
        assert(is_rewritten(fp, fr, i - 1) == is_rewritten(ps, rs, i - 1));
    }
}

proof fn lemma_rewrite_count_mono(ps: Seq<PromptView>, rs: Seq<Option<Seq<char>>>, i: int, j: int)
    requires
        0 <= i <= j,
    ensures
        rewrite_count(ps, rs, i) <= rewrite_count(ps, rs, j),
    decreases j - i,
{
    if i < j {
        lemma_rewrite_count_mono(ps, rs, i, j - 1);
    }
}

/// The session with its formatted prompts written back, or `None` when
/// no prompt changed.
pub open spec fn pycon_rebuilt(c: Seq<char>, ps: Seq<PromptView>, rs: Seq<Option<Seq<char>>>) -> Option<
    Seq<char>,
> {
    let es = pycon_edits(ps, rs);
    if es.len() == 0 {
        None
    } else {
        Some(spliced(c, es))
    }
}

/// Writes the formatter results of the prompts back into a console
/// session: `results[i]` is the formatted code of `prompts[i]`, or `None`
/// where formatting failed.
pub fn rebuild_console(code: &str, prompts: &Vec<PyconPrompt>, results: &Vec<Option<String>>) -> (r:
    Option<String>)
    requires
        prompts@.len() == results@.len(),
        prompts_wf(code@, prompt_views(prompts@)),
    ensures
        match r {
            Some(t) => pycon_rebuilt(code@, prompt_views(prompts@), result_views(results@))
                == Some(t@),
            None => pycon_rebuilt(code@, prompt_views(prompts@), result_views(results@)) is None,
        },
{
    let ghost ps = prompt_views(prompts@);
    let ghost rs = result_views(results@);
    let mut edits: Vec<Edit> = Vec::new();
    let mut i: usize = 0;
    proof {
        assert(ps.take(0) =~= Seq::<PromptView>::empty());
        assert(rs.take(0) =~= Seq::<Option<Seq<char>>>::empty());
    }
    while i < prompts.len()
        invariant
            ps == prompt_views(prompts@),
            rs == result_views(results@),
            prompts@.len() == results@.len(),
            prompts_wf(code@, ps),
            0 <= i <= prompts@.len(),
            edit_views(edits@) == pycon_edits(ps.take(i as int), rs.take(i as int)),
            edits_wf(code@, edit_views(edits@)),
            i < prompts@.len() ==> forall|j: int|
                0 <= j < edits@.len() ==> (#[trigger] edits@[j]).end <= ps[i as int].start,
        decreases prompts@.len() - i,
    {
        let p = &prompts[i];
        let ghost e0 = edit_views(edits@);
        proof {
            assert(ps.take(i + 1).drop_last() =~= ps.take(i as int));
            assert(rs.take(i + 1).drop_last() =~= rs.take(i as int));
            assert(ps.take(i + 1).last() == p@);
        }
        match &results[i] {
            Some(f) => {
                proof {
                    assert(rs.take(i + 1).last() == Some(f@));
                }
                if is_rewrite(p.code.as_str(), f.as_str()) {
                    edits.push(Edit { start: p.start, end: p.end, replacement: prompted(f.as_str()) });
                    proof {
                        assert(edit_views(edits@) =~= e0.push(edits@.last()@));
                    }
                }
            },
            None => {
                proof {
                    assert(rs.take(i + 1).last() is None);
                }
            },
        }
        proof {
            if i + 1 < prompts@.len() {
                assert(ps[i as int].end <= ps[i + 1].start);
            }
        }
        i = i + 1;
    }
    proof {
        assert(ps.take(i as int) =~= ps);
        assert(rs.take(i as int) =~= rs);
    }
    match apply_edits(code, &edits) {
        MarkdownResult::Formatted(t) => Some(t),
        MarkdownResult::Unchanged => None,
    }
}

} // verus!
