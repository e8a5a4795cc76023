//! Extraction of the Python code of a Markdown document, line for line.

use vstd::prelude::*;
use crate::fence::{
    action_text, directive_match, fence_match, fence_text, language_text, match_directive,
    match_fence, off_word, on_word, state_after_directive,
};
use crate::lines::{
    copy_range, find_line_end, lemma_line_end, lemma_lines_at_append, lemma_lines_line_endings, lemma_lines_single,
    with_line_endings,
    lemma_spans_from, line_spans, lines, no_line_break, skip_terminator, spans_from, LineSpan,
};
use crate::text::{ascii_lower, chars_of, lower_range, push_char, push_chars, range_eq};

verus! {

/// A code block that has been opened and not yet closed.
pub struct OpenBlock {
    /// The fence that opened it; only the same fence closes it.
    pub fence: Seq<char>,
    /// Whether its lines are kept.
    pub python: bool,
}

/// The state of the scan between two lines.
pub struct ExtractState {
    /// Whether processing is on (no `off` directive is in force).
    pub on: bool,
    /// The code block the scan is in, if any.
    pub block: Option<OpenBlock>,
}

pub open spec fn python_word() -> Seq<char> {
    seq!['p', 'y', 't', 'h', 'o', 'n']
}

pub open spec fn py_word() -> Seq<char> {
    seq!['p', 'y']
}

pub open spec fn python3_word() -> Seq<char> {
    seq!['p', 'y', 't', 'h', 'o', 'n', '3']
}

pub open spec fn py3_word() -> Seq<char> {
    seq!['p', 'y', '3']
}

/// The languages whose blocks hold Python code: `python`, `py`,
/// `python3` and `py3`, in any ASCII case.
pub open spec fn is_python_language(lang: Seq<char>) -> bool {
    let lc = ascii_lower(lang);
    lc == python_word() || lc == py_word() || lc == python3_word() || lc == py3_word()
}

/// The state before the first line.
pub open spec fn initial_extract_state() -> ExtractState {
    ExtractState { on: true, block: None }
}

/// One line of the scan: the state after line `l`, and what the output
/// line holds (the line itself, or nothing).
///
/// Outside a block, a directive line switches processing off or on and a
/// fence line opens a block; its lines are kept when processing is on and
/// its language is Python. Inside a block, a fence line with the same
/// fence closes the block, and every other line is kept or dropped.
pub open spec fn extract_step(st: ExtractState, l: Seq<char>) -> (ExtractState, Seq<char>) {
    match st.block {
        None => match directive_match(l) {
            Some(d) => (
                ExtractState { on: state_after_directive(st.on, action_text(l, d)), block: None },
                seq![],
            ),
            None => match fence_match(l) {
                Some(m) => (
                    ExtractState {
                        on: st.on,
                        block: Some(
                            OpenBlock {
                                fence: fence_text(l, m),
                                python: st.on && is_python_language(language_text(l, m)),
                            },
                        ),
                    },
                    seq![],
                ),
                None => (st, seq![]),
            },
        },
        Some(b) => {
            if fence_match(l) matches Some(m) && fence_text(l, m) == b.fence {
                (ExtractState { on: st.on, block: None }, seq![])
            } else {
                (
                    st,
                    if b.python {
                        l
                    } else {
                        seq![]
                    },
                )
            }
        },
    }
}

/// The scan over a sequence of lines: the final state and the output,
/// one output line (ended by `\n`) per input line.
pub open spec fn extract_run(ls: Seq<Seq<char>>) -> (ExtractState, Seq<char>)
    decreases ls.len(),
{
    if ls.len() == 0 {
        (initial_extract_state(), seq![])
    } else {
        let (st, out) = extract_run(ls.drop_last());
        let (st2, piece) = extract_step(st, ls.last());
        (st2, out + piece.push('\n'))
    }
}

/// The Python code of a Markdown document, line for line.
pub open spec fn extracted(source: Seq<char>) -> Seq<char> {
    extract_run(lines(source)).1
}

/// The scan state held by the executable variables.
pub open spec fn state_of(on: bool, fence: Option<Vec<char>>, python: bool) -> ExtractState {
    ExtractState {
        on,
        block: match fence {
            Some(f) => Some(OpenBlock { fence: f@, python }),
            None => None,
        },
    }
}

/// Decides `is_python_language` for `l[from..to]`.
pub fn python_language_at(l: &[char], from: usize, to: usize) -> (b: bool)
    requires
        from <= to <= l@.len(),
    ensures
        b == is_python_language(l@.subrange(from as int, to as int)),
{
    let lc = lower_range(l, from, to);
    let python: [char; 6] = ['p', 'y', 't', 'h', 'o', 'n'];
    let py: [char; 2] = ['p', 'y'];
    let python3: [char; 7] = ['p', 'y', 't', 'h', 'o', 'n', '3'];
    let py3: [char; 3] = ['p', 'y', '3'];
    assert(python@ == python_word());
    assert(py@ == py_word());
    assert(python3@ == python3_word());
    assert(py3@ == py3_word());
    let n = lc.len();
    assert(lc@.subrange(0, n as int) =~= lc@);
    range_eq(lc.as_slice(), 0, n, &python) || range_eq(lc.as_slice(), 0, n, &py) || range_eq(
        lc.as_slice(),
        0,
        n,
        &python3,
    ) || range_eq(lc.as_slice(), 0, n, &py3)
}

/// Extracts the Python source from the fenced ```` ```python ```` code
/// blocks of a Markdown document, keeping line numbers: the result has one
/// line, ended by `\n`, for each line of `source`. A line inside a
/// recognized Python block is kept as it is; every other line (the fence
/// lines, prose, the lines of other blocks) becomes empty. Blocks opened
/// while an `off` directive is in force are not extracted.
pub fn extract_python(source: &str) -> (out: String)
    ensures
        out@ == extracted(source@),
{
    let s = chars_of(source);
    let mut out = String::new();
    let mut on = true;
    let mut fence: Option<Vec<char>> = None;
    let mut python = false;
    let mut pos: usize = 0;
    let ghost mut k: int = 0;
    proof {
        assert(lines(s@).take(0) =~= Seq::<Seq<char>>::empty());
        assert(line_spans(s@).skip(0) =~= line_spans(s@));
    }
    while pos < s.len()
        invariant
            pos <= s@.len(),
            0 <= k <= line_spans(s@).len(),
            spans_from(s@, pos as int) == line_spans(s@).skip(k),
            extract_run(lines(s@).take(k)) == (state_of(on, fence, python), out@),
        decreases s@.len() - pos,
    {
        let e = find_line_end(&s, pos);
        let next = skip_terminator(&s, e);
        proof {
            lemma_line_end(s@, pos as int);
        }
        let line = copy_range(&s, pos, e);
        let l = line.as_slice();
        let ghost sp = LineSpan { start: pos as int, end: e as int, full_end: next as int };
        let ghost st = state_of(on, fence, python);
        let ghost out0 = out@;
        proof {
            assert(spans_from(s@, pos as int) == seq![sp] + spans_from(s@, next as int));
            assert(line_spans(s@).skip(k)[0] == sp);
            assert(line_spans(s@)[k] == sp);
            assert(lines(s@)[k] == l@);
            assert(line_spans(s@).skip(k + 1) =~= line_spans(s@).skip(k).drop_first());
            assert(lines(s@).take(k + 1).drop_last() =~= lines(s@).take(k));
            assert(lines(s@).take(k + 1).last() == l@);
        }
        if fence.is_none() {
            match match_directive(l) {
                Some(d) => {
                    let off: [char; 3] = ['o', 'f', 'f'];
                    let on_w: [char; 2] = ['o', 'n'];
                    assert(off@ == off_word());
                    assert(on_w@ == on_word());
                    if range_eq(l, d.action_start, d.action_end, &off) {
                        on = false;
                    } else if range_eq(l, d.action_start, d.action_end, &on_w) {
                        on = true;
                    }
                },
                None => {
                    match match_fence(l) {
                        Some(m) => {
                            python = on && python_language_at(l, m.language_start, m.language_end);
                            fence = Some(copy_range(&line, m.indent_end, m.fence_end));
                        },
                        None => {},
                    }
                },
            }
        } else {
            let closes = match &fence {
                Some(f) => match match_fence(l) {
                    Some(m) => range_eq(l, m.indent_end, m.fence_end, f.as_slice()),
                    None => false,
                },
                None => false,
            };
            if closes {
                fence = None;
            } else if python {
                push_chars(&mut out, l);
            }
        }
        push_char(&mut out, '\n');
        proof {
            let (st2, piece) = extract_step(st, l@);
            assert(st2 == state_of(on, fence, python));
            assert(out@ == out0 + piece.push('\n'));
        }
        pos = next;
        proof {
            k = k + 1;
        }
    }
    proof {
        assert(line_spans(s@).skip(k).len() == 0);
        assert(lines(s@).take(k) =~= lines(s@));
    }
    out
}


/// Each output line is the input line or empty.
proof fn lemma_step_piece(st: ExtractState, l: Seq<char>)
    ensures
        extract_step(st, l).1 == l || extract_step(st, l).1.len() == 0,
{
}

/// The output of a scan over lines without breaks has one line per input
/// line, each equal to its input line or empty, and ends with `\n`.
proof fn lemma_run_lines(ls: Seq<Seq<char>>)
    requires
        forall|k: int| 0 <= k < ls.len() ==> no_line_break(#[trigger] ls[k]),
    ensures
        lines(extract_run(ls).1).len() == ls.len(),
        forall|k: int|
            0 <= k < ls.len() ==> (#[trigger] lines(extract_run(ls).1)[k] == ls[k] || lines(
                extract_run(ls).1,
            )[k].len() == 0),
        extract_run(ls).1.len() == 0 || extract_run(ls).1.last() == '\n',
        forall|k: int|
            0 <= k < ls.len() ==> #[trigger] lines(extract_run(ls).1)[k] == extract_step(
                extract_run(ls.take(k)).0,
                ls[k],
            ).1,
    decreases ls.len(),
{
    if ls.len() == 0 {
        assert(lines(extract_run(ls).1) =~= Seq::<Seq<char>>::empty());
    } else {
        let front = ls.drop_last();
        assert forall|k: int| 0 <= k < front.len() implies no_line_break(#[trigger] front[k]) by {
            assert(front[k] == ls[k]);
        }
        lemma_run_lines(front);
        let (st, out) = extract_run(front);
        let (st2, piece) = extract_step(st, ls.last());
        lemma_step_piece(st, ls.last());
        assert(no_line_break(ls.last()));
        if piece.len() == 0 {
            assert forall|j: int| 0 <= j < piece.len() implies !crate::lines::is_line_break(
                #[trigger] piece[j],
            ) by {}
        }
        assert(no_line_break(piece));
        lemma_lines_single(piece);
        let tail = piece.push('\n');
        assert(extract_run(ls).1 == out + tail);
        if out.len() == 0 {
            assert(out + tail =~= tail);
        } else {
            lemma_lines_at_append(out, tail, 0);
        }
        assert(lines(out + tail) =~= lines(out) + seq![piece]);
        assert((out + tail).last() == '\n');
        assert forall|k: int| 0 <= k < ls.len() implies #[trigger] lines(extract_run(ls).1)[k]
            == extract_step(extract_run(ls.take(k)).0, ls[k]).1 by {
            if k < front.len() {
                assert(front.take(k) =~= ls.take(k));
                assert(front[k] == ls[k]);
                assert(lines(out + tail)[k] == lines(out)[k]);
            } else {
                assert(ls.take(k) =~= front);
            }
        }
    }
}

/// The extracted code has exactly as many lines as the document, and each
/// of its lines is either the document's line at the same position or
/// empty: a position in the extracted code is the same position in the
/// document.
pub proof fn lemma_extracted_lines(source: Seq<char>)
    ensures
        lines(extracted(source)).len() == lines(source).len(),
        forall|k: int|
            0 <= k < lines(source).len() ==> (#[trigger] lines(extracted(source))[k] == lines(
                source,
            )[k] || lines(extracted(source))[k].len() == 0),
{
    lemma_spans_from(source, 0);
    let ls = lines(source);
    assert forall|k: int| 0 <= k < ls.len() implies no_line_break(#[trigger] ls[k]) by {
        let sp = line_spans(source)[k];
        assert(ls[k] == source.subrange(sp.start, sp.end));
    }
    lemma_run_lines(ls);
}

/// Whether line `k` of `s` lies strictly inside a block of Python code:
/// when the scan reaches it, a block is open that was opened while
/// processing was on with a Python language, and the line is not the
/// fence that closes that block.
pub open spec fn inside_python_block(s: Seq<char>, k: int) -> bool {
    let ls = lines(s);
    let st = extract_run(ls.take(k)).0;
    &&& st.block matches Some(b)
    &&& b.python
    &&& !(fence_match(ls[k]) matches Some(m) && fence_text(ls[k], m) == b.fence)
}

/// Each line of the extracted code is the document's line at the same
/// position, kept verbatim, when that line lies inside a block of Python
/// code, and empty otherwise.
pub proof fn lemma_extracted_python_lines(source: Seq<char>)
    ensures
        lines(extracted(source)).len() == lines(source).len(),
        forall|k: int|
            0 <= k < lines(source).len() ==> #[trigger] lines(extracted(source))[k] == (if inside_python_block(source, k) {
                lines(source)[k]
            } else {
                Seq::<char>::empty()
            }),
{
    lemma_spans_from(source, 0);
    let ls = lines(source);
    assert forall|k: int| 0 <= k < ls.len() implies no_line_break(#[trigger] ls[k]) by {
        let sp = line_spans(source)[k];
        assert(ls[k] == source.subrange(sp.start, sp.end));
    }
    lemma_run_lines(ls);
    assert forall|k: int| 0 <= k < ls.len() implies #[trigger] lines(extracted(source))[k] == (if inside_python_block(source, k) {
        ls[k]
    } else {
        Seq::<char>::empty()
    }) by {
        let st = extract_run(ls.take(k)).0;
        assert(lines(extracted(source))[k] == extract_step(st, ls[k]).1);
        if extract_step(st, ls[k]).1.len() == 0 {
            assert(extract_step(st, ls[k]).1 =~= Seq::<char>::empty());
        }
    }
}

/// A scan over lines none of which is a fence line stays outside blocks
/// and outputs an empty line for each line.
proof fn lemma_run_without_fences(ls: Seq<Seq<char>>)
    requires
        forall|k: int| 0 <= k < ls.len() ==> (#[trigger] fence_match(ls[k])).is_none(),
    ensures
        extract_run(ls).0.block.is_none(),
        extract_run(ls).1 == Seq::new(ls.len(), |i: int| '\n'),
    decreases ls.len(),
{
    if ls.len() == 0 {
        assert(extract_run(ls).1 =~= Seq::new(ls.len(), |i: int| '\n'));
    } else {
        let front = ls.drop_last();
        assert forall|k: int| 0 <= k < front.len() implies (#[trigger] fence_match(
            front[k],
        )).is_none() by {
            assert(front[k] == ls[k]);
        }
        lemma_run_without_fences(front);
        assert(fence_match(ls.last()).is_none());
        assert(extract_run(ls).1 =~= Seq::new(ls.len(), |i: int| '\n'));
    }
}

/// A document without fence lines extracts to one empty line per line.
pub proof fn lemma_no_fences_no_code(source: Seq<char>)
    requires
        forall|k: int| 0 <= k < lines(source).len() ==> (#[trigger] fence_match(
            lines(source)[k],
        )).is_none(),
    ensures
        extracted(source) == Seq::new(lines(source).len(), |i: int| '\n'),
{
    lemma_run_without_fences(lines(source));
}


/// The extracted code does not depend on how the document ends its
/// lines: writing each `\n` as `\r\n` or as `\r` extracts the same code.
pub proof fn lemma_extracted_line_endings(source: Seq<char>, t: Seq<char>)
    requires
        forall|j: int| 0 <= j < source.len() ==> #[trigger] source[j] != '\r',
        t == seq!['\r', '\n'] || t == seq!['\r'],
    ensures
        extracted(with_line_endings(source, t)) == extracted(source),
{
    lemma_lines_line_endings(source, t);
}

} // verus!
