//! Finding the code blocks of a Markdown document that are to be
//! formatted, and writing formatted code back into the document.

use vstd::prelude::*;
use crate::fence::{
    action_text, closes_fence, closes_fence_chars, directive_match, fence_match, fence_text,
    indent_text, language_text, match_directive, match_fence, off_word, on_word,
    state_after_directive,
};
use crate::lines::{
    copy_range, find_line_end, lemma_line_end, line_spans, skip_terminator,
    spans_from, LineSpan,
};
use crate::text::{ascii_lower, chars_of, lower_range, push_chars, push_range, range_eq, string_of};
use crate::MarkdownResult;

verus! {

/// A fenced code block whose code may be formatted. Positions count
/// characters of the document.
pub struct CodeBlock {
    /// The indentation of the opening fence line.
    pub indent: String,
    /// The language of the block, in ASCII lower case.
    pub language: String,
    /// Where the code starts: the start of the line after the opening fence.
    pub start: usize,
    /// Where the code ends: the start of the closing fence line.
    pub end: usize,
    /// The code, `start..end` of the document.
    pub code: String,
}

/// The mathematical content of a `CodeBlock`.
pub struct CodeBlockView {
    pub indent: Seq<char>,
    pub language: Seq<char>,
    pub start: int,
    pub end: int,
    pub code: Seq<char>,
}

impl View for CodeBlock {
    type V = CodeBlockView;

    open spec fn view(&self) -> CodeBlockView {
        CodeBlockView {
            indent: self.indent@,
            language: self.language@,
            start: self.start as int,
            end: self.end as int,
            code: self.code@,
        }
    }
}

/// A block whose opening fence has been seen and whose closing fence has
/// not.
pub struct PendingBlock {
    pub fence: Seq<char>,
    pub indent: Seq<char>,
    pub language: Seq<char>,
    pub start: int,
}

/// The state of the block scan between two lines.
pub struct BlockScan {
    pub on: bool,
    pub pending: Option<PendingBlock>,
}

/// One line of the block scan, for the line at `sp` of document `s`: the
/// new state and the block that the line closes, if any.
///
/// Outside a block, directives switch processing off and on, and a fence
/// line opens a block. Inside a block, the first line that closes the
/// opening fence (`closes_fence`) ends it; the block is reported when
/// processing is on.
pub open spec fn block_step(st: BlockScan, s: Seq<char>, sp: LineSpan) -> (
    BlockScan,
    Option<CodeBlockView>,
) {
    let l = s.subrange(sp.start, sp.end);
    match st.pending {
        None => match directive_match(l) {
            Some(d) => (
                BlockScan { on: state_after_directive(st.on, action_text(l, d)), pending: None },
                None,
            ),
            None => match fence_match(l) {
                Some(m) => (
                    BlockScan {
                        on: st.on,
                        pending: Some(
                            PendingBlock {
                                fence: fence_text(l, m),
                                indent: indent_text(l, m),
                                language: ascii_lower(language_text(l, m)),
                                start: sp.full_end,
                            },
                        ),
                    },
                    None,
                ),
                None => (st, None),
            },
        },
        Some(b) => {
            if closes_fence(l, b.fence, b.fence.len() as int) {
                (
                    BlockScan { on: st.on, pending: None },
                    if st.on {
                        Some(
                            CodeBlockView {
                                indent: b.indent,
                                language: b.language,
                                start: b.start,
                                end: sp.start,
                                code: s.subrange(b.start, sp.start),
                            },
                        )
                    } else {
                        None
                    },
                )
            } else {
                (st, None)
            }
        },
    }
}

/// The block scan over the first lines of `s` (given by their spans).
pub open spec fn block_run(s: Seq<char>, sps: Seq<LineSpan>) -> (BlockScan, Seq<CodeBlockView>)
    decreases sps.len(),
{
    if sps.len() == 0 {
        (BlockScan { on: true, pending: None }, seq![])
    } else {
        let (st, found) = block_run(s, sps.drop_last());
        let (st2, b) = block_step(st, s, sps.last());
        (
            st2,
            match b {
                Some(v) => found.push(v),
                None => found,
            },
        )
    }
}

/// The code blocks of a document that are to be formatted, in order.
pub open spec fn code_blocks(s: Seq<char>) -> Seq<CodeBlockView> {
    block_run(s, line_spans(s)).1
}

/// The blocks lie in order within the document and hold its text.
pub open spec fn blocks_wf(s: Seq<char>, bs: Seq<CodeBlockView>) -> bool {
    &&& forall|i: int|
        0 <= i < bs.len() ==> {
            &&& 0 <= (#[trigger] bs[i]).start <= bs[i].end <= s.len()
            &&& bs[i].code == s.subrange(bs[i].start, bs[i].end)
        }
    &&& forall|i: int, j: int| 0 <= i < j < bs.len() ==> bs[i].end <= bs[j].start
}

/// The pending block held by the executable variables.
pub open spec fn pending_of(
    fence: Option<Vec<char>>,
    indent: Vec<char>,
    language: Vec<char>,
    start: usize,
) -> Option<PendingBlock> {
    match fence {
        Some(f) => Some(
            PendingBlock { fence: f@, indent: indent@, language: language@, start: start as int },
        ),
        None => None,
    }
}


/// The content of the line at `sp`.
pub open spec fn line_text(s: Seq<char>, sp: LineSpan) -> Seq<char> {
    s.subrange(sp.start, sp.end)
}

/// Block `b` is the code between line `k` of `s`, a fence line, and line
/// `k2`, the first later line that closes that fence: its language is the
/// fence line's language word in ASCII lower case (whatever info string
/// follows it), its indentation is the fence line's, and its code is the
/// text from the start of the line after the fence line up to the start
/// of the closing line.
pub open spec fn block_between(s: Seq<char>, b: CodeBlockView, k: int, k2: int) -> bool {
    let sps = line_spans(s);
    let open = line_text(s, sps[k]);
    &&& 0 <= k < k2 < sps.len()
    &&& fence_match(open) matches Some(m)
    &&& b.language == ascii_lower(language_text(open, m))
    &&& b.indent == indent_text(open, m)
    &&& b.start == sps[k].full_end
    &&& b.end == sps[k2].start
    &&& b.code == s.subrange(b.start, b.end)
    &&& closes_fence(line_text(s, sps[k2]), fence_text(open, m), fence_text(open, m).len() as int)
    &&& forall|j: int|
        k < j < k2 ==> !closes_fence(
            line_text(s, #[trigger] sps[j]),
            fence_text(open, m),
            fence_text(open, m).len() as int,
        )
}

/// Block `b` is the code between some fence line of `s` and the first
/// later line that closes it.
pub open spec fn block_from_lines(s: Seq<char>, b: CodeBlockView) -> bool {
    exists|k: int, k2: int| #[trigger] block_between(s, b, k, k2)
}

/// The pending block `p` was opened by fence line `k`, and none of the
/// lines after it, up to line `n`, closes it.
pub open spec fn pending_since(s: Seq<char>, p: PendingBlock, k: int, n: int) -> bool {
    let sps = line_spans(s);
    let open = line_text(s, sps[k]);
    &&& 0 <= k < n
    &&& fence_match(open) matches Some(m)
    &&& p.fence == fence_text(open, m)
    &&& p.language == ascii_lower(language_text(open, m))
    &&& p.indent == indent_text(open, m)
    &&& p.start == sps[k].full_end
    &&& forall|j: int|
        k < j < n ==> !closes_fence(line_text(s, #[trigger] sps[j]), p.fence, p.fence.len() as int)
}

proof fn lemma_block_run_lines(s: Seq<char>, n: int)
    requires
        0 <= n <= line_spans(s).len(),
    ensures
        ({
            let (st, found) = block_run(s, line_spans(s).take(n));
            &&& forall|i: int| 0 <= i < found.len() ==> block_from_lines(s, #[trigger] found[i])
            &&& st.pending matches Some(p) ==> exists|k: int| #[trigger] pending_since(s, p, k, n)
        }),
    decreases n,
{
    let sps = line_spans(s);
    if n == 0 {
        assert(sps.take(0) =~= Seq::<LineSpan>::empty());
    } else {
        lemma_block_run_lines(s, n - 1);
        assert(sps.take(n).drop_last() =~= sps.take(n - 1));
        assert(sps.take(n).last() == sps[n - 1]);
        let (st, found) = block_run(s, sps.take(n - 1));
        let sp = sps[n - 1];
        let l = line_text(s, sp);
        let (st2, b) = block_step(st, s, sp);
        assert(block_run(s, sps.take(n)) == (
            st2,
            match b {
                Some(v) => found.push(v),
                None => found,
            },
        ));
        let found2 = match b {
            Some(v) => found.push(v),
            None => found,
        };
        match st.pending {
            None => {
                if directive_match(l) is None {
                    if let Some(m) = fence_match(l) {
                        let p = st2.pending->0;
                        assert(pending_since(s, p, n - 1, n));
                    }
                }
            },
            Some(p) => {
                let k = choose|k: int| #[trigger] pending_since(s, p, k, n - 1);
                assert(pending_since(s, p, k, n - 1));
                if closes_fence(l, p.fence, p.fence.len() as int) {
                    if st.on {
                        let v = b->0;
                        assert(block_between(s, v, k, n - 1));
                        assert(found2[found.len() as int] == v);
                    }
                } else {
                    assert(st2.pending == Some(p));
                    assert forall|j: int| k < j < n implies !closes_fence(
                        line_text(s, #[trigger] sps[j]),
                        p.fence,
                        p.fence.len() as int,
                    ) by {
                        if j == n - 1 {
                            assert(line_text(s, sps[j]) == l);
                        }
                    }
                    assert(pending_since(s, p, k, n));
                }
            },
        }
        assert(st2.pending matches Some(p) ==> exists|k: int| #[trigger] pending_since(s, p, k, n));
        let (st3, found3) = block_run(s, sps.take(n));
        assert(st3 == st2);
        assert(found3 == found2);
        assert forall|i: int| 0 <= i < found3.len() implies block_from_lines(s, #[trigger] found3[i]) by {
            assert(found3[i] == found2[i]);
            if i < found.len() {
                assert(found2[i] == found[i]);
                assert(block_from_lines(s, found[i]));
            } else {
                let k = choose|k: int| #[trigger] pending_since(s, st.pending->0, k, n - 1);
                assert(block_between(s, found3[i], k, n - 1));
            }
        }
        assert(st3.pending matches Some(p) ==> exists|k: int| #[trigger] pending_since(s, p, k, n));
    }
}

/// Each block of `code_blocks(s)` is the code between a fence line of `s`
/// and the first later line that closes it (`block_between`).
pub proof fn lemma_code_blocks_lines(s: Seq<char>)
    ensures
        forall|i: int|
            0 <= i < code_blocks(s).len() ==> block_from_lines(s, #[trigger] code_blocks(s)[i]),
{
    let n = line_spans(s).len() as int;
    lemma_block_run_lines(s, n);
    assert(line_spans(s).take(n) =~= line_spans(s));
}

/// The block scan after the first `n` lines of `s`.
pub open spec fn scan_after(s: Seq<char>, n: int) -> (BlockScan, Seq<CodeBlockView>) {
    block_run(s, line_spans(s).take(n))
}

proof fn lemma_scan_after_step(s: Seq<char>, n: int)
    requires
        0 <= n < line_spans(s).len(),
    ensures
        ({
            let (st, found) = scan_after(s, n);
            let (st2, b) = block_step(st, s, line_spans(s)[n]);
            scan_after(s, n + 1) == (
                st2,
                match b {
                    Some(v) => found.push(v),
                    None => found,
                },
            )
        }),
{
    let sps = line_spans(s);
    assert(sps.take(n + 1).drop_last() =~= sps.take(n));
    assert(sps.take(n + 1).last() == sps[n]);
}

/// Blocks once found stay found, in place.
proof fn lemma_scan_found_grows(s: Seq<char>, n: int, m: int)
    requires
        0 <= n <= m <= line_spans(s).len(),
    ensures
        scan_after(s, n).1.len() <= scan_after(s, m).1.len(),
        forall|i: int|
            0 <= i < scan_after(s, n).1.len() ==> #[trigger] scan_after(s, m).1[i] == scan_after(
                s,
                n,
            ).1[i],
    decreases m - n,
{
    if n < m {
        lemma_scan_found_grows(s, n, m - 1);
        lemma_scan_after_step(s, m - 1);
        let f = scan_after(s, m - 1).1;
        assert forall|i: int| 0 <= i < scan_after(s, n).1.len() implies #[trigger] scan_after(
            s,
            m,
        ).1[i] == scan_after(s, n).1[i] by {
            assert(scan_after(s, m).1[i] == f[i]);
        }
    }
}

/// While no line closes an open block, the scan keeps it open and keeps
/// processing on or off as it was.
proof fn lemma_scan_keeps_pending(s: Seq<char>, k0: int, j: int, st: BlockScan)
    requires
        0 <= k0 < j <= line_spans(s).len(),
        scan_after(s, k0 + 1).0 == st,
        st.pending is Some,
        forall|q: int|
            k0 < q < j ==> !closes_fence(
                line_text(s, #[trigger] line_spans(s)[q]),
                st.pending->0.fence,
                st.pending->0.fence.len() as int,
            ),
    ensures
        scan_after(s, j).0 == st,
    decreases j - k0,
{
    if j > k0 + 1 {
        lemma_scan_keeps_pending(s, k0, j - 1, st);
        lemma_scan_after_step(s, j - 1);
    }
}

/// Each fence line met outside any block while processing is on, and
/// closed by a later line, gives a block: the code between the two lines
/// is among `code_blocks(s)`.
pub proof fn lemma_code_blocks_complete(s: Seq<char>, k: int, k2: int)
    requires
        0 <= k < k2 < line_spans(s).len(),
        scan_after(s, k).0.pending is None,
        scan_after(s, k).0.on,
        directive_match(line_text(s, line_spans(s)[k])) is None,
        fence_match(line_text(s, line_spans(s)[k])) is Some,
        ({
            let open = line_text(s, line_spans(s)[k]);
            let f = fence_text(open, fence_match(open)->0);
            &&& closes_fence(line_text(s, line_spans(s)[k2]), f, f.len() as int)
            &&& forall|j: int|
                k < j < k2 ==> !closes_fence(
                    line_text(s, #[trigger] line_spans(s)[j]),
                    f,
                    f.len() as int,
                )
        }),
    ensures
        exists|i: int|
            0 <= i < code_blocks(s).len() && #[trigger] block_between(s, code_blocks(s)[i], k, k2),
{
    let sps = line_spans(s);
    let open = line_text(s, sps[k]);
    let m = fence_match(open)->0;
    lemma_scan_after_step(s, k);
    let st = scan_after(s, k + 1).0;
    assert(st.on);
    assert(st.pending is Some);
    lemma_scan_keeps_pending(s, k, k2, st);
    lemma_scan_after_step(s, k2);
    let found = scan_after(s, k2).1;
    let (st3, b) = block_step(st, s, sps[k2]);
    let v = b->0;
    assert(scan_after(s, k2 + 1).1 == found.push(v));
    assert(block_between(s, v, k, k2));
    lemma_scan_found_grows(s, k2 + 1, sps.len() as int);
    assert(sps.take(sps.len() as int) =~= sps);
    let all = code_blocks(s);
    assert(all[found.len() as int] == scan_after(s, k2 + 1).1[found.len() as int]);
    assert(block_between(s, all[found.len() as int], k, k2));
}

/// The views of a vector of blocks.
pub open spec fn views_of(v: Seq<CodeBlock>) -> Seq<CodeBlockView> {
    v.map_values(|b: CodeBlock| b@)
}

/// Finds the fenced code blocks of `source` that are to be formatted:
/// those opened and closed while processing is on. A block closes at the
/// first later line that repeats the opening fence character at least as
/// often as the opening fence, followed only by spaces and tabs; a block
/// that never closes is not reported.
pub fn find_code_blocks(source: &str) -> (r: Vec<CodeBlock>)
    ensures
        views_of(r@) == code_blocks(source@),
        blocks_wf(source@, code_blocks(source@)),
{
    let s = chars_of(source);
    let mut found: Vec<CodeBlock> = Vec::new();
    let mut on = true;
    let mut fence: Option<Vec<char>> = None;
    let mut indent: Vec<char> = Vec::new();
    let mut language: Vec<char> = Vec::new();
    let mut start: usize = 0;
    let mut pos: usize = 0;
    let ghost mut k: int = 0;
    proof {
        assert(line_spans(s@).take(0) =~= Seq::<LineSpan>::empty());
        assert(line_spans(s@).skip(0) =~= line_spans(s@));
        assert(views_of(found@) =~= Seq::<CodeBlockView>::empty());
    }
    while pos < s.len()
        invariant
            pos <= s@.len(),
            s@ == source@,
            0 <= k <= line_spans(s@).len(),
            spans_from(s@, pos as int) == line_spans(s@).skip(k),
            block_run(s@, line_spans(s@).take(k)) == (
                BlockScan { on, pending: pending_of(fence, indent, language, start) },
                views_of(found@),
            ),
            blocks_wf(s@, views_of(found@)),
            forall|i: int| 0 <= i < found@.len() ==> (#[trigger] found@[i]).end <= pos,
            fence.is_some() ==> start <= pos,
            fence.is_some() ==> forall|i: int|
                0 <= i < found@.len() ==> (#[trigger] found@[i]).end <= start,
            fence matches Some(f) ==> f@.len() > 0 && (f@[0] == '`' || f@[0] == '~'),
        decreases s@.len() - pos,
    {
        let e = find_line_end(&s, pos);
        let next = skip_terminator(&s, e);
        proof {
            lemma_line_end(s@, pos as int);
        }
        let line = copy_range(&s, pos, e);
        let l = line.as_slice();
        let ghost sp = LineSpan { start: pos as int, end: e as int, full_end: next as int };
        let ghost st = BlockScan { on, pending: pending_of(fence, indent, language, start) };
        let ghost found0 = views_of(found@);
        proof {
            assert(spans_from(s@, pos as int) == seq![sp] + spans_from(s@, next as int));
            assert(line_spans(s@).skip(k)[0] == sp);
            assert(line_spans(s@)[k] == sp);
            assert(line_spans(s@).skip(k + 1) =~= line_spans(s@).skip(k).drop_first());
            assert(line_spans(s@).take(k + 1).drop_last() =~= line_spans(s@).take(k));
            assert(line_spans(s@).take(k + 1).last() == sp);
            assert(s@.subrange(sp.start, sp.end) == l@);
        }
        if fence.is_none() {
            match match_directive(l) {
                Some(d) => {
                    let off: [char; 3] = ['o', 'f', 'f'];
                    let on_w: [char; 2] = ['o', 'n'];
                    assert(off@ == off_word());
                    assert(on_w@ == on_word());
                    if range_eq(l, d.action_start, d.action_end, &off) {
                        on = false;
                    } else if range_eq(l, d.action_start, d.action_end, &on_w) {
                        on = true;
                    }
                },
                None => {
                    match match_fence(l) {
                        Some(m) => {
                            fence = Some(copy_range(&line, m.indent_end, m.fence_end));
                            indent = copy_range(&line, 0, m.indent_end);
                            language = lower_range(l, m.language_start, m.language_end);
                            start = next;
                        },
                        None => {},
                    }
                },
            }
        } else {
            let closes = match &fence {
                Some(f) => closes_fence_chars(l, f.as_slice(), f.len()),
                None => false,
            };
            if closes {
                if on {
                    let code = copy_range(&s, start, pos);
                    let block = CodeBlock {
                        indent: string_of(indent.as_slice()),
                        language: string_of(language.as_slice()),
                        start,
                        end: pos,
                        code: string_of(code.as_slice()),
                    };
                    found.push(block);
                    proof {
                        assert(views_of(found@) =~= found0.push(found@.last()@));
                    }
                }
                fence = None;
            }
        }
        proof {
            let (st2, b) = block_step(st, s@, sp);
            assert(st2 == BlockScan { on, pending: pending_of(fence, indent, language, start) });
            assert(views_of(found@) == match b {
                Some(v) => found0.push(v),
                None => found0,
            });
        }
        pos = next;
        proof {
            k = k + 1;
        }
    }
    proof {
        assert(line_spans(s@).skip(k).len() == 0);
        assert(line_spans(s@).take(k) =~= line_spans(s@));
    }
    found
}


/// A replacement of `start..end` of a document by new text.
pub struct Edit {
    pub start: usize,
    pub end: usize,
    pub replacement: String,
}

/// The mathematical content of an `Edit`.
pub struct EditView {
    pub start: int,
    pub end: int,
    pub replacement: Seq<char>,
}

impl View for Edit {
    type V = EditView;

    open spec fn view(&self) -> EditView {
        EditView { start: self.start as int, end: self.end as int, replacement: self.replacement@ }
    }
}

/// The views of a vector of edits.
pub open spec fn edit_views(v: Seq<Edit>) -> Seq<EditView> {
    v.map_values(|e: Edit| e@)
}

/// The edits lie in order within the document and do not overlap.
pub open spec fn edits_wf(s: Seq<char>, es: Seq<EditView>) -> bool {
    &&& forall|i: int| 0 <= i < es.len() ==> 0 <= (#[trigger] es[i]).start <= es[i].end <= s.len()
    &&& forall|i: int, j: int| 0 <= i < j < es.len() ==> es[i].end <= es[j].start
}

/// The document from position `last` on, with the edits `es` applied.
pub open spec fn splice_from(s: Seq<char>, es: Seq<EditView>, last: int) -> Seq<char>
    decreases es.len(),
{
    if es.len() == 0 {
        s.subrange(last, s.len() as int)
    } else {
        s.subrange(last, es[0].start) + es[0].replacement + splice_from(s, es.drop_first(), es[0].end)
    }
}

/// The document with the edits applied.
pub open spec fn spliced(s: Seq<char>, es: Seq<EditView>) -> Seq<char> {
    splice_from(s, es, 0)
}

/// Applying edits in order: the last edit puts its replacement exactly in
/// place of its range of the document, the text after that range is
/// kept, and the edits before it act on the text before that range.
pub proof fn lemma_spliced_last(s: Seq<char>, es: Seq<EditView>, e: EditView)
    requires
        edits_wf(s, es.push(e)),
    ensures
        spliced(s, es.push(e)) == spliced(s.subrange(0, e.start), es) + e.replacement + s.subrange(
            e.end,
            s.len() as int,
        ),
{
    lemma_splice_from_last(s, es, e, 0);
}

proof fn lemma_splice_from_last(s: Seq<char>, es: Seq<EditView>, e: EditView, last: int)
    requires
        edits_wf(s, es.push(e)),
        0 <= last,
        es.len() > 0 ==> last <= es[0].start,
        es.len() == 0 ==> last <= e.start,
    ensures
        splice_from(s, es.push(e), last) == splice_from(s.subrange(0, e.start), es, last)
            + e.replacement + s.subrange(e.end, s.len() as int),
    decreases es.len(),
{
    let all = es.push(e);
    assert(all[es.len() as int] == e);
    assert(0 <= e.start <= e.end <= s.len());
    let p = s.subrange(0, e.start);
    if es.len() == 0 {
        assert(all.drop_first() =~= Seq::<EditView>::empty());
        assert(all[0] == e);
        assert(splice_from(s, all.drop_first(), e.end) == s.subrange(e.end, s.len() as int));
        assert(splice_from(s, all, last) == s.subrange(last, e.start) + e.replacement
            + s.subrange(e.end, s.len() as int));
        assert(p.subrange(last, p.len() as int) =~= s.subrange(last, e.start));
        assert(splice_from(p, es, last) == p.subrange(last, p.len() as int));
    } else {
        let rest = es.drop_first();
        assert(all[0] == es[0]);
        assert(all.drop_first() =~= rest.push(e));
        assert forall|i: int| 0 <= i < rest.push(e).len() implies 0 <= (#[trigger] rest.push(
            e,
        )[i]).start <= rest.push(e)[i].end <= s.len() by {
            assert(rest.push(e)[i] == all[i + 1]);
        }
        assert forall|i: int, j: int| 0 <= i < j < rest.push(e).len() implies rest.push(
            e,
        )[i].end <= rest.push(e)[j].start by {
            assert(rest.push(e)[i] == all[i + 1]);
            assert(rest.push(e)[j] == all[j + 1]);
        }
        assert(all[0].end <= all[1].start);
        if rest.len() > 0 {
            assert(rest[0] == all[1]);
        } else {
            assert(all[1] == e);
        }
        lemma_splice_from_last(s, rest, e, es[0].end);
        assert(all[0].start <= all[es.len() as int].start);
        assert(p.subrange(last, es[0].start) =~= s.subrange(last, es[0].start));
        assert(splice_from(s, all, last) =~= splice_from(p, es, last) + e.replacement
            + s.subrange(e.end, s.len() as int));
    }
}

/// Applies the edits to the document: `Unchanged` when there is none,
/// else the document with each edited range replaced.
pub fn apply_edits(source: &str, edits: &Vec<Edit>) -> (r: MarkdownResult)
    requires
        edits_wf(source@, edit_views(edits@)),
    ensures
        match r {
            MarkdownResult::Formatted(t) => edits@.len() > 0 && t@ == spliced(
                source@,
                edit_views(edits@),
            ),
            MarkdownResult::Unchanged => edits@.len() == 0,
        },
{
    if edits.len() == 0 {
        return MarkdownResult::Unchanged;
    }
    let s = chars_of(source);
    let ghost es = edit_views(edits@);
    let mut out = String::new();
    let mut last: usize = 0;
    let mut i: usize = 0;
    proof {
        assert(es.skip(0) =~= es);
    }
    while i < edits.len()
        invariant
            s@ == source@,
            es == edit_views(edits@),
            edits_wf(s@, es),
            0 <= i <= edits@.len(),
            last <= s@.len(),
            i < edits@.len() ==> last <= es[i as int].start,
            out@ + splice_from(s@, es.skip(i as int), last as int) == spliced(s@, es),
        decreases edits@.len() - i,
    {
        let ed = &edits[i];
        proof {
            assert(es[i as int] == ed@);
            assert(es.skip(i as int).drop_first() =~= es.skip(i + 1));
            assert(es.skip(i as int)[0] == ed@);
        }
        let ghost out0 = out@;
        let ghost last0 = last as int;
        push_range(&mut out, s.as_slice(), last, ed.start);
        let r = chars_of(ed.replacement.as_str());
        push_chars(&mut out, r.as_slice());
        last = ed.end;
        i = i + 1;
        proof {
            let e = es[i - 1];
            assert(splice_from(s@, es.skip(i - 1), last0) == s@.subrange(last0, e.start)
                + e.replacement + splice_from(s@, es.skip(i as int), e.end));
            assert(out@ == out0 + s@.subrange(last0, e.start) + e.replacement);
            assert(out@ + splice_from(s@, es.skip(i as int), last as int) =~= out0 + splice_from(
                s@,
                es.skip(i - 1),
                last0,
            ));
        }
    }
    push_range(&mut out, s.as_slice(), last, s.len());
    MarkdownResult::Formatted(out)
}


/// Whether formatted code replaces the code it was formatted from: only
/// when it differs.
pub fn is_rewrite(unformatted: &str, formatted: &str) -> (r: bool)
    ensures
        r == (formatted@ != unformatted@),
{
    let u = chars_of(unformatted);
    let f = chars_of(formatted);
    assert(f@.subrange(0, f@.len() as int) =~= f@);
    !range_eq(f.as_slice(), 0, f.len(), u.as_slice())
}

/// How the code of a block is formatted.
#[derive(Debug, Clone, Copy, PartialEq, Eq)]
pub enum CodeKind {
    /// As a Python module.
    Module,
    /// As a Python console session (`>>>` prompts).
    Console,
}

pub open spec fn pyi_word() -> Seq<char> {
    seq!['p', 'y', 'i']
}

pub open spec fn pycon_word() -> Seq<char> {
    seq!['p', 'y', 'c', 'o', 'n']
}

/// The kind of a (lower-case) block language: `python`, `py`, `python3`,
/// `py3` and `pyi` are modules, `pycon` is a console session, and other
/// languages are not formatted.
pub open spec fn code_kind_of(language: Seq<char>) -> Option<CodeKind> {
    if language == crate::extract::python_word() || language == crate::extract::py_word()
        || language == crate::extract::python3_word() || language == crate::extract::py3_word()
        || language == pyi_word() {
        Some(CodeKind::Module)
    } else if language == pycon_word() {
        Some(CodeKind::Console)
    } else {
        None
    }
}

/// Decides `code_kind_of`.
pub fn code_kind(language: &str) -> (r: Option<CodeKind>)
    ensures
        r == code_kind_of(language@),
{
    let l = chars_of(language);
    let n = l.len();
    let python: [char; 6] = ['p', 'y', 't', 'h', 'o', 'n'];
    let py: [char; 2] = ['p', 'y'];
    let python3: [char; 7] = ['p', 'y', 't', 'h', 'o', 'n', '3'];
    let py3: [char; 3] = ['p', 'y', '3'];
    let pyi: [char; 3] = ['p', 'y', 'i'];
    let pycon: [char; 5] = ['p', 'y', 'c', 'o', 'n'];
    assert(python@ == crate::extract::python_word());
    assert(py@ == crate::extract::py_word());
    assert(python3@ == crate::extract::python3_word());
    assert(py3@ == crate::extract::py3_word());
    assert(pyi@ == pyi_word());
    assert(pycon@ == pycon_word());
    assert(l@.subrange(0, n as int) =~= l@);
    let ls = l.as_slice();
    if range_eq(ls, 0, n, &python) || range_eq(ls, 0, n, &py) || range_eq(ls, 0, n, &python3)
        || range_eq(ls, 0, n, &py3) || range_eq(ls, 0, n, &pyi) {
        Some(CodeKind::Module)
    } else if range_eq(ls, 0, n, &pycon) {
        Some(CodeKind::Console)
    } else {
        None
    }
}

/// Edits that put back the text they replace leave the document as it
/// is.
pub proof fn lemma_identity_edits(s: Seq<char>, es: Seq<EditView>)
    requires
        edits_wf(s, es),
        forall|i: int|
            0 <= i < es.len() ==> (#[trigger] es[i]).replacement == s.subrange(
                es[i].start,
                es[i].end,
            ),
    ensures
        spliced(s, es) == s,
{
    lemma_identity_edits_from(s, es, 0);
    assert(s.subrange(0, s.len() as int) =~= s);
}

proof fn lemma_identity_edits_from(s: Seq<char>, es: Seq<EditView>, last: int)
    requires
        edits_wf(s, es),
        0 <= last <= s.len(),
        es.len() > 0 ==> last <= es[0].start,
        forall|i: int|
            0 <= i < es.len() ==> (#[trigger] es[i]).replacement == s.subrange(
                es[i].start,
                es[i].end,
            ),
    ensures
        splice_from(s, es, last) == s.subrange(last, s.len() as int),
    decreases es.len(),
{
    if es.len() > 0 {
        let rest = es.drop_first();
        assert forall|i: int| 0 <= i < rest.len() implies 0 <= (#[trigger] rest[i]).start
            <= rest[i].end <= s.len() by {
            assert(rest[i] == es[i + 1]);
        }
        assert forall|i: int, j: int| 0 <= i < j < rest.len() implies rest[i].end
            <= rest[j].start by {
            assert(rest[i] == es[i + 1]);
            assert(rest[j] == es[j + 1]);
        }
        assert forall|i: int| 0 <= i < rest.len() implies (#[trigger] rest[i]).replacement
            == s.subrange(rest[i].start, rest[i].end) by {
            assert(rest[i] == es[i + 1]);
        }
        if rest.len() > 0 {
            assert(rest[0] == es[1]);
        }
        lemma_identity_edits_from(s, rest, es[0].end);
        assert(s.subrange(last, es[0].start) + s.subrange(es[0].start, es[0].end) + s.subrange(
            es[0].end,
            s.len() as int,
        ) =~= s.subrange(last, s.len() as int));
    }
}


/// The edits that write new code into blocks: one for each block with a
/// replacement, replacing its code.
pub open spec fn block_edits(bs: Seq<CodeBlockView>, rs: Seq<Option<Seq<char>>>) -> Seq<EditView>
    decreases bs.len(),
{
    if bs.len() == 0 {
        seq![]
    } else {
        let prev = block_edits(bs.drop_last(), rs.drop_last());
        match rs.last() {
            Some(t) => prev.push(EditView { start: bs.last().start, end: bs.last().end, replacement: t }),
            None => prev,
        }
    }
}

/// How many of the first `i` replacements exist.
pub open spec fn some_count(rs: Seq<Option<Seq<char>>>, i: int) -> nat
    decreases i,
{
    if i <= 0 {
        0
    } else {
        some_count(rs, i - 1) + if rs[i - 1] is Some {
            1nat
        } else {
            0nat
        }
    }
}

/// The edits for the blocks are, in block order, one per block with a
/// replacement: the edit for block `i` is the one after those of the
/// blocks before it, and it replaces exactly `bs[i].start..bs[i].end` by
/// that block's replacement.
pub proof fn lemma_block_edits_positions(bs: Seq<CodeBlockView>, rs: Seq<Option<Seq<char>>>)
    requires
        bs.len() == rs.len(),
    ensures
        block_edits(bs, rs).len() == some_count(rs, rs.len() as int),
        forall|i: int|
            0 <= i < bs.len() && rs[i] is Some ==> #[trigger] block_edits(bs, rs)[some_count(
                rs,
                i,
            ) as int] == (EditView { start: bs[i].start, end: bs[i].end, replacement: rs[i]->0 }),
    decreases bs.len(),
{
    if bs.len() > 0 {
        let n = bs.len() - 1;
        let fb = bs.drop_last();
        let fr = rs.drop_last();
        lemma_block_edits_positions(fb, fr);
        lemma_some_count_prefix(rs, fr, n);
        let prev = block_edits(fb, fr);
        assert forall|i: int| 0 <= i < bs.len() && rs[i] is Some implies #[trigger] block_edits(
            bs,
            rs,
        )[some_count(rs, i) as int] == (EditView {
            start: bs[i].start,
            end: bs[i].end,
            replacement: rs[i]->0,
        }) by {
            if i < n {
                lemma_some_count_prefix(rs, fr, i);
                lemma_some_count_mono(fr, i + 1, n);
                assert(fb[i] == bs[i]);
                assert(fr[i] == rs[i]);
            }
        }
    }
}

proof fn lemma_some_count_prefix(rs: Seq<Option<Seq<char>>>, fr: Seq<Option<Seq<char>>>, i: int)
    requires
        fr.len() <= rs.len(),
        forall|j: int| 0 <= j < fr.len() ==> fr[j] == rs[j],
        0 <= i <= fr.len(),
    ensures
        some_count(fr, i) == some_count(rs, i),
    decreases i,
{
    if i > 0 {
        lemma_some_count_prefix(rs, fr, i - 1);
    }
}

proof fn lemma_some_count_mono(rs: Seq<Option<Seq<char>>>, i: int, j: int)
    requires
        0 <= i <= j,
    ensures
        some_count(rs, i) <= some_count(rs, j),
    decreases j - i,
{
    if i < j {
        lemma_some_count_mono(rs, i, j - 1);
    }
}

/// The views of optional replacement texts.
pub open spec fn replacement_views(rs: Seq<Option<String>>) -> Seq<Option<Seq<char>>> {
    rs.map_values(
        |o: Option<String>|
            match o {
                Some(t) => Some(t@),
                None => None,
            },
    )
}

/// Writes new code into the blocks of a document: `replacements[i]` is
/// the new text of `blocks[i]`, or `None` to keep it. The result is
/// `Unchanged` when no block has a replacement.
pub fn write_blocks(source: &str, blocks: &Vec<CodeBlock>, replacements: &Vec<Option<String>>) -> (r:
    MarkdownResult)
    requires
        blocks@.len() == replacements@.len(),
        blocks_wf(source@, views_of(blocks@)),
    ensures
        ({
            let es = block_edits(views_of(blocks@), replacement_views(replacements@));
            match r {
                MarkdownResult::Formatted(t) => es.len() > 0 && t@ == spliced(source@, es),
                MarkdownResult::Unchanged => es.len() == 0,
            }
        }),
{
    let ghost bs = views_of(blocks@);
    let ghost rs = replacement_views(replacements@);
    let mut edits: Vec<Edit> = Vec::new();
    let mut i: usize = 0;
    proof {
        assert(bs.take(0) =~= Seq::<CodeBlockView>::empty());
        assert(rs.take(0) =~= Seq::<Option<Seq<char>>>::empty());
    }
    while i < blocks.len()
        invariant
            bs == views_of(blocks@),
            rs == replacement_views(replacements@),
            blocks@.len() == replacements@.len(),
            blocks_wf(source@, bs),
            0 <= i <= blocks@.len(),
            edit_views(edits@) == block_edits(bs.take(i as int), rs.take(i as int)),
            edits_wf(source@, edit_views(edits@)),
            i < blocks@.len() ==> forall|j: int|
                0 <= j < edits@.len() ==> (#[trigger] edits@[j]).end <= bs[i as int].start,
        decreases blocks@.len() - i,
    {
        let b = &blocks[i];
        let ghost e0 = edit_views(edits@);
        proof {
            assert(bs.take(i + 1).drop_last() =~= bs.take(i as int));
            assert(rs.take(i + 1).drop_last() =~= rs.take(i as int));
            assert(bs.take(i + 1).last() == b@);
            assert(bs[i as int] == b@);
        }
        match &replacements[i] {
            Some(t) => {
                proof {
                    assert(rs.take(i + 1).last() == Some(t@));
                }
                edits.push(Edit { start: b.start, end: b.end, replacement: t.clone() });
                proof {
                    assert(edit_views(edits@) =~= e0.push(edits@.last()@));
                }
            },
            None => {
                proof {
                    assert(rs.take(i + 1).last() is None);
                }
            },
        }
        proof {
            if i + 1 < blocks@.len() {
                assert(bs[i as int].end <= bs[i + 1].start);
            }
        }
        i = i + 1;
    }
    proof {
        assert(bs.take(i as int) =~= bs);
        assert(rs.take(i as int) =~= rs);
    }
    apply_edits(source, &edits)
}

} // verus!
