//! The two line grammars of the Markdown scanner: fence lines that open
//! or close a code block, and HTML comments that turn block processing off
//! and on.

use vstd::prelude::*;
use crate::unicode::{is_white_space, is_word_char, white_space, word_char};
use crate::text::chars_of;
use vstd::string::StringSliceAdditionalSpecFns;

verus! {

/// End of the run of characters satisfying `p` that starts at `i`.
pub open spec fn run_while(l: Seq<char>, i: int, p: spec_fn(char) -> bool) -> int
    decreases l.len() - i,
{
    if 0 <= i < l.len() && p(l[i]) {
        run_while(l, i + 1, p)
    } else {
        i
    }
}

/// End of the run of white space that starts at `i`.
pub open spec fn white_end(l: Seq<char>, i: int) -> int {
    run_while(l, i, |c: char| is_white_space(c))
}

/// End of the run of word characters that starts at `i`.
pub open spec fn word_end(l: Seq<char>, i: int) -> int {
    run_while(l, i, |c: char| is_word_char(c))
}

/// End of the run of copies of `c` that starts at `i`.
pub open spec fn char_run_end(l: Seq<char>, i: int, c: char) -> int {
    run_while(l, i, |x: char| x == c)
}

/// Finds `white_end(l, i)`.
pub fn find_white_end(l: &[char], i: usize) -> (e: usize)
    requires
        i <= l@.len(),
    ensures
        e == white_end(l@, i as int),
        i <= e <= l@.len(),
        forall|k: int| i <= k < e ==> #[trigger] is_white_space(l@[k]),
        e < l@.len() ==> !is_white_space(l@[e as int]),
{
    let mut j = i;
    while j < l.len() && white_space(l[j])
        invariant
            i <= j <= l@.len(),
            white_end(l@, j as int) == white_end(l@, i as int),
            forall|k: int| i <= k < j ==> #[trigger] is_white_space(l@[k]),
        decreases l@.len() - j,
    {
        j = j + 1;
    }
    j
}

/// Finds `word_end(l, i)`.
pub fn find_word_end(l: &[char], i: usize) -> (e: usize)
    requires
        i <= l@.len(),
    ensures
        e == word_end(l@, i as int),
        i <= e <= l@.len(),
        forall|k: int| i <= k < e ==> #[trigger] is_word_char(l@[k]),
        e < l@.len() ==> !is_word_char(l@[e as int]),
{
    let mut j = i;
    while j < l.len() && word_char(l[j])
        invariant
            i <= j <= l@.len(),
            word_end(l@, j as int) == word_end(l@, i as int),
            forall|k: int| i <= k < j ==> #[trigger] is_word_char(l@[k]),
        decreases l@.len() - j,
    {
        j = j + 1;
    }
    j
}

/// Finds `char_run_end(l, i, c)`.
pub fn find_char_run_end(l: &[char], i: usize, c: char) -> (e: usize)
    requires
        i <= l@.len(),
    ensures
        e == char_run_end(l@, i as int, c),
        i <= e <= l@.len(),
        forall|k: int| i <= k < e ==> #[trigger] l@[k] == c,
        e < l@.len() ==> l@[e as int] != c,
{
    let mut j = i;
    while j < l.len() && l[j] == c
        invariant
            i <= j <= l@.len(),
            char_run_end(l@, j as int, c) == char_run_end(l@, i as int, c),
            forall|k: int| i <= k < j ==> #[trigger] l@[k] == c,
        decreases l@.len() - j,
    {
        j = j + 1;
    }
    j
}


/// Where the parts of a fence line lie: the indentation is `0..indent_end`,
/// the fence `indent_end..fence_end`, the language
/// `language_start..language_end` and the info string `info_start..`.
pub struct FenceMatch {
    pub indent_end: usize,
    pub fence_end: usize,
    pub language_start: usize,
    pub language_end: usize,
    pub info_start: usize,
}

/// The fence-line grammar: optional white space, a fence of three or more
/// backticks or three or more tildes, optional white space, a language
/// made of word characters that may stand in braces, optional white space
/// and any info string. Each part is as long as it can be.
pub open spec fn fence_match(l: Seq<char>) -> Option<FenceMatch> {
    let i0 = white_end(l, 0);
    if i0 < l.len() && (l[i0] == '`' || l[i0] == '~') && char_run_end(l, i0, l[i0]) >= i0 + 3 {
        let i1 = char_run_end(l, i0, l[i0]);
        let i2 = white_end(l, i1);
        let i3 = if i2 < l.len() && l[i2] == '{' {
            i2 + 1
        } else {
            i2
        };
        let i4 = word_end(l, i3);
        let i5 = if i4 < l.len() && l[i4] == '}' {
            i4 + 1
        } else {
            i4
        };
        let i6 = white_end(l, i5);
        Some(
            FenceMatch {
                indent_end: i0 as usize,
                fence_end: i1 as usize,
                language_start: i3 as usize,
                language_end: i4 as usize,
                info_start: i6 as usize,
            },
        )
    } else {
        None
    }
}

/// The fence characters of a fence line.
pub open spec fn fence_text(l: Seq<char>, m: FenceMatch) -> Seq<char> {
    l.subrange(m.indent_end as int, m.fence_end as int)
}

/// The indentation of a fence line.
pub open spec fn indent_text(l: Seq<char>, m: FenceMatch) -> Seq<char> {
    l.subrange(0, m.indent_end as int)
}

/// The language of a fence line (possibly empty).
pub open spec fn language_text(l: Seq<char>, m: FenceMatch) -> Seq<char> {
    l.subrange(m.language_start as int, m.language_end as int)
}

/// The positions of a match lie in order within the line.
pub open spec fn fence_match_wf(l: Seq<char>, m: FenceMatch) -> bool {
    &&& m.indent_end < m.fence_end <= m.language_start <= m.language_end <= m.info_start <= l.len()
    &&& m.fence_end >= m.indent_end + 3
}

/// Recognizes a fence line.
pub fn match_fence(l: &[char]) -> (r: Option<FenceMatch>)
    ensures
        r == fence_match(l@),
        r matches Some(m) ==> fence_match_wf(l@, m),
{
    let i0 = find_white_end(l, 0);
    if i0 < l.len() && (l[i0] == '`' || l[i0] == '~') {
        let c = l[i0];
        let i1 = find_char_run_end(l, i0, c);
        if i1 - i0 >= 3 {
            let i2 = find_white_end(l, i1);
            let i3 = if i2 < l.len() && l[i2] == '{' {
                i2 + 1
            } else {
                i2
            };
            let i4 = find_word_end(l, i3);
            let i5 = if i4 < l.len() && l[i4] == '}' {
                i4 + 1
            } else {
                i4
            };
            let i6 = find_white_end(l, i5);
            return Some(
                FenceMatch {
                    indent_end: i0,
                    fence_end: i1,
                    language_start: i3,
                    language_end: i4,
                    info_start: i6,
                },
            );
        }
    }
    None
}


/// Case-insensitive equality with a lower-case letter (or exact equality
/// with any other character). Besides the ASCII upper-case letter, `k`
/// also matches the Kelvin sign and `s` the long s, as under Unicode
/// simple case folding.
pub open spec fn ci_char(c: char, lower: char) -> bool {
    ||| c == lower
    ||| ('a' <= lower && lower <= 'z' && c as int == lower as int - 32)
    ||| (lower == 'k' && c as int == 0x212a)
    ||| (lower == 's' && c as int == 0x17f)
}

/// Whether `w` occurs at position `i` of `l`, compared with `ci_char`.
pub open spec fn ci_word_at(l: Seq<char>, i: int, w: Seq<char>) -> bool {
    &&& 0 <= i
    &&& i + w.len() <= l.len()
    &&& forall|j: int| #![trigger w[j]] 0 <= j < w.len() ==> ci_char(l[i + j], w[j])
}

pub open spec fn comment_open() -> Seq<char> {
    seq!['<', '!', '-', '-']
}

pub open spec fn comment_close() -> Seq<char> {
    seq!['-', '-', '>']
}

pub open spec fn blacken_docs_word() -> Seq<char> {
    seq!['b', 'l', 'a', 'c', 'k', 'e', 'n', '-', 'd', 'o', 'c', 's']
}

pub open spec fn fmt_word() -> Seq<char> {
    seq!['f', 'm', 't']
}

pub open spec fn off_word() -> Seq<char> {
    seq!['o', 'f', 'f']
}

pub open spec fn on_word() -> Seq<char> {
    seq!['o', 'n']
}

/// Where the action word of a directive lies: `action_start..action_end`.
pub struct DirectiveMatch {
    pub action_start: usize,
    pub action_end: usize,
}

/// The directive grammar, matched at the start of a line and letters
/// compared without regard to case: optional white space, `<!--`, optional
/// white space, `blacken-docs` or `fmt`, optional white space, `:`,
/// optional white space, the action `off` or `on`, optional white space
/// and `-->`. Anything may follow.
pub open spec fn directive_match(l: Seq<char>) -> Option<DirectiveMatch> {
    let i0 = white_end(l, 0);
    let i1 = white_end(l, i0 + 4);
    let kw_len: int = if ci_word_at(l, i1, blacken_docs_word()) {
        12
    } else {
        3
    };
    let i2 = white_end(l, i1 + kw_len);
    let i3 = white_end(l, i2 + 1);
    let act_len: int = if ci_word_at(l, i3, off_word()) {
        3
    } else {
        2
    };
    let i4 = white_end(l, i3 + act_len);
    if ci_word_at(l, i0, comment_open()) && (ci_word_at(l, i1, blacken_docs_word()) || ci_word_at(
        l,
        i1,
        fmt_word(),
    )) && i2 < l.len() && l[i2] == ':' && (ci_word_at(l, i3, off_word()) || ci_word_at(
        l,
        i3,
        on_word(),
    )) && ci_word_at(l, i4, comment_close()) {
        Some(DirectiveMatch { action_start: i3 as usize, action_end: (i3 + act_len) as usize })
    } else {
        None
    }
}

/// The action word of a directive, as written.
pub open spec fn action_text(l: Seq<char>, m: DirectiveMatch) -> Seq<char> {
    l.subrange(m.action_start as int, m.action_end as int)
}

/// Processing state after a directive: only the lower-case words `off`
/// and `on` change it.
pub open spec fn state_after_directive(on: bool, action: Seq<char>) -> bool {
    if action == off_word() {
        false
    } else if action == on_word() {
        true
    } else {
        on
    }
}

/// Decides `ci_char`.
pub fn ci_char_eq(c: char, lower: char) -> (b: bool)
    ensures
        b == ci_char(c, lower),
{
    let v = c as u32;
    let w = lower as u32;
    c == lower || ('a' <= lower && lower <= 'z' && v + 32 == w) || (lower == 'k' && v == 0x212a) || (
    lower == 's' && v == 0x17f)
}

/// Decides `ci_word_at`.
pub fn ci_word_at_exec(l: &[char], i: usize, w: &[char]) -> (b: bool)
    ensures
        b == ci_word_at(l@, i as int, w@),
{
    let n = l.len();
    if i > n || n - i < w.len() {
        return false;
    }
    let mut j: usize = 0;
    while j < w.len()
        invariant
            n == l@.len(),
            0 <= j <= w@.len(),
            i + w@.len() <= l@.len(),
            forall|k: int| #![trigger w@[k]] 0 <= k < j ==> ci_char(l@[i + k], w@[k]),
        decreases w@.len() - j,
    {
        assert(i + j < l@.len());
        if !ci_char_eq(l[i + j], w[j]) {
            return false;
        }
        j = j + 1;
    }
    true
}

/// Recognizes a directive line.
pub fn match_directive(l: &[char]) -> (r: Option<DirectiveMatch>)
    ensures
        r == directive_match(l@),
        r matches Some(m) ==> m.action_start <= m.action_end <= l@.len(),
{
    let open: [char; 4] = ['<', '!', '-', '-'];
    let close: [char; 3] = ['-', '-', '>'];
    let blacken: [char; 12] = ['b', 'l', 'a', 'c', 'k', 'e', 'n', '-', 'd', 'o', 'c', 's'];
    let fmt: [char; 3] = ['f', 'm', 't'];
    let off: [char; 3] = ['o', 'f', 'f'];
    let on: [char; 2] = ['o', 'n'];
    assert(open@ == comment_open());
    assert(close@ == comment_close());
    assert(blacken@ == blacken_docs_word());
    assert(fmt@ == fmt_word());
    assert(off@ == off_word());
    assert(on@ == on_word());
    assert(open@.len() == 4 && blacken@.len() == 12 && fmt@.len() == 3);
    assert(off@.len() == 3 && on@.len() == 2 && close@.len() == 3);
    let n = l.len();
    let i0 = find_white_end(l, 0);
    if !ci_word_at_exec(l, i0, &open) {
        return None;
    }
    let i1 = find_white_end(l, i0 + 4);
    let kw_len: usize = if ci_word_at_exec(l, i1, &blacken) {
        12
    } else if ci_word_at_exec(l, i1, &fmt) {
        3
    } else {
        return None;
    };
    let i2 = find_white_end(l, i1 + kw_len);
    if !(i2 < l.len() && l[i2] == ':') {
        return None;
    }
    let i3 = find_white_end(l, i2 + 1);
    let act_len: usize = if ci_word_at_exec(l, i3, &off) {
        3
    } else if ci_word_at_exec(l, i3, &on) {
        2
    } else {
        return None;
    };
    let i4 = find_white_end(l, i3 + act_len);
    if ci_word_at_exec(l, i4, &close) {
        Some(DirectiveMatch { action_start: i3, action_end: i3 + act_len })
    } else {
        None
    }
}


/// Whether `line` closes a block opened by `fence`, which is
/// `fence_bytes` bytes long: after leading white space, the line holds at
/// least `fence_bytes` copies of the fence's first character, followed by
/// nothing but spaces and tabs. A fence whose first character is not
/// ASCII closes nothing.
pub open spec fn closes_fence(line: Seq<char>, fence: Seq<char>, fence_bytes: int) -> bool {
    let s = white_end(line, 0);
    let n = char_run_end(line, s, fence[0]);
    &&& fence.len() > 0
    &&& (fence[0] as u32) < 0x80
    &&& n - s >= fence_bytes
    &&& forall|j: int| n <= j < line.len() ==> (line[j] == ' ' || line[j] == '\t')
}

/// Decides `closes_fence` on character slices.
pub fn closes_fence_chars(line: &[char], fence: &[char], fence_bytes: usize) -> (r: bool)
    ensures
        r == closes_fence(line@, fence@, fence_bytes as int),
{
    if fence.len() == 0 {
        return false;
    }
    let c = fence[0];
    if (c as u32) >= 0x80 {
        return false;
    }
    let s = find_white_end(line, 0);
    let n = find_char_run_end(line, s, c);
    if n - s < fence_bytes {
        return false;
    }
    let mut j = n;
    while j < line.len()
        invariant
            n <= j <= line@.len(),
            fence@.len() > 0,
            n == char_run_end(line@, white_end(line@, 0), fence@[0]),
            forall|k: int| n <= k < j ==> (line@[k] == ' ' || line@[k] == '\t'),
        decreases line@.len() - j,
    {
        if !(line[j] == ' ' || line[j] == '\t') {
            assert(n <= j < line@.len() && !(line@[j as int] == ' ' || line@[j as int] == '\t'));
            return false;
        }
        j = j + 1;
    }
    true
}

/// Whether `line` closes the code block opened by `opening_fence`: after
/// leading white space it repeats the fence's first character at least as
/// many times as the fence has bytes, and is followed only by spaces and
/// tabs.
pub fn is_closing_code_fence(line: &str, opening_fence: &str) -> (r: bool)
    ensures
        r == closes_fence(line@, opening_fence@, opening_fence.len() as int),
{
    let l = chars_of(line);
    let f = chars_of(opening_fence);
    closes_fence_chars(l.as_slice(), f.as_slice(), opening_fence.len())
}


/// Whether every character of `w` is white space.
pub open spec fn all_white(w: Seq<char>) -> bool {
    forall|j: int| 0 <= j < w.len() ==> is_white_space(#[trigger] w[j])
}

/// Text put in front of `x` moves its white-space runs by its length.
proof fn lemma_white_end_shift(w: Seq<char>, x: Seq<char>, j: int)
    requires
        0 <= j <= x.len(),
    ensures
        white_end(w + x, w.len() + j) == w.len() + white_end(x, j),
    decreases x.len() - j,
{
    if j < x.len() {
        assert((w + x)[w.len() + j] == x[j]);
        if is_white_space(x[j]) {
            lemma_white_end_shift(w, x, j + 1);
        }
    }
}

/// Text put in front of `x` moves its runs of `c` by its length.
proof fn lemma_char_run_end_shift(w: Seq<char>, x: Seq<char>, j: int, c: char)
    requires
        0 <= j <= x.len(),
    ensures
        char_run_end(w + x, w.len() + j, c) == w.len() + char_run_end(x, j, c),
    decreases x.len() - j,
{
    if j < x.len() {
        assert((w + x)[w.len() + j] == x[j]);
        if x[j] == c {
            lemma_char_run_end_shift(w, x, j + 1, c);
        }
    }
}

/// A white-space run that starts in leading white space `w` runs through it.
proof fn lemma_white_end_through(w: Seq<char>, x: Seq<char>, i: int)
    requires
        all_white(w),
        0 <= i <= w.len(),
    ensures
        white_end(w + x, i) == white_end(w + x, w.len() as int),
    decreases w.len() - i,
{
    if i < w.len() {
        assert((w + x)[i] == w[i]);
        lemma_white_end_through(w, x, i + 1);
    }
}

/// A run of `c` that starts inside a run of `c` runs through it.
proof fn lemma_char_run_end_through(x: Seq<char>, i: int, k: int, c: char)
    requires
        0 <= i <= k <= x.len(),
        forall|j: int| i <= j < k ==> #[trigger] x[j] == c,
    ensures
        char_run_end(x, i, c) == char_run_end(x, k, c),
    decreases k - i,
{
    if i < k {
        lemma_char_run_end_through(x, i + 1, k, c);
    }
}

/// Whether a line closes a fence does not depend on how much white space
/// it starts with.
pub proof fn lemma_closes_fence_leading_white(w: Seq<char>, x: Seq<char>, f: Seq<char>, n: int)
    requires
        all_white(w),
    ensures
        closes_fence(w + x, f, n) == closes_fence(x, f, n),
{
    let y = w + x;
    lemma_white_end_through(w, x, 0);
    lemma_white_end_shift(w, x, 0);
    let sx = white_end(x, 0);
    let sy = white_end(y, 0);
    assert(sy == w.len() + sx);
    if f.len() > 0 {
        let c = f[0];
        lemma_run_bounds_white(x);
        lemma_char_run_end_shift(w, x, sx, c);
        let nx = char_run_end(x, sx, c);
        let ny = char_run_end(y, sy, c);
        assert(ny == w.len() + nx);
        lemma_char_run_bounds(x, sx, c);
        if forall|j: int| nx <= j < x.len() ==> (x[j] == ' ' || x[j] == '\t') {
            assert forall|j: int| ny <= j < y.len() implies (y[j] == ' ' || y[j] == '\t') by {
                assert(y[j] == x[j - w.len()]);
            }
        }
        if forall|j: int| ny <= j < y.len() ==> (y[j] == ' ' || y[j] == '\t') {
            assert forall|j: int| nx <= j < x.len() implies (x[j] == ' ' || x[j] == '\t') by {
                assert(y[j + w.len()] == x[j]);
            }
        }
    }
}

proof fn lemma_run_bounds_white(x: Seq<char>)
    ensures
        0 <= white_end(x, 0) <= x.len(),
    decreases x.len(),
{
    lemma_white_end_bounds(x, 0);
}

proof fn lemma_white_end_bounds(x: Seq<char>, i: int)
    requires
        0 <= i <= x.len(),
    ensures
        i <= white_end(x, i) <= x.len(),
    decreases x.len() - i,
{
    if i < x.len() && is_white_space(x[i]) {
        lemma_white_end_bounds(x, i + 1);
    }
}

proof fn lemma_char_run_bounds(x: Seq<char>, i: int, c: char)
    requires
        0 <= i <= x.len(),
    ensures
        i <= char_run_end(x, i, c) <= x.len(),
    decreases x.len() - i,
{
    if i < x.len() && x[i] == c {
        lemma_char_run_bounds(x, i + 1, c);
    }
}

/// A fence of backticks or tildes, after any amount of white space and
/// followed only by spaces and tabs, closes the block it opened.
pub proof fn lemma_fence_closes_itself(w: Seq<char>, f: Seq<char>, t: Seq<char>)
    requires
        all_white(w),
        f.len() > 0,
        f[0] == '`' || f[0] == '~',
        forall|j: int| 0 <= j < f.len() ==> #[trigger] f[j] == f[0],
        forall|j: int| 0 <= j < t.len() ==> (#[trigger] t[j] == ' ' || t[j] == '\t'),
    ensures
        closes_fence(w + f + t, f, f.len() as int),
{
    let x = f + t;
    assert(w + f + t =~= w + x);
    lemma_closes_fence_leading_white(w, x, f, f.len() as int);
    let c = f[0];
    assert(x[0] == c);
    assert(!is_white_space(c));
    assert(white_end(x, 0) == 0);
    assert forall|j: int| 0 <= j < f.len() implies #[trigger] x[j] == c by {
        assert(x[j] == f[j]);
    }
    lemma_char_run_end_through(x, 0, f.len() as int, c);
    if t.len() > 0 {
        assert(x[f.len() as int] == t[0]);
    }
    assert(char_run_end(x, f.len() as int, c) == f.len());
    assert forall|j: int| f.len() <= j < x.len() implies (x[j] == ' ' || x[j] == '\t') by {
        assert(x[j] == t[j - f.len()]);
    }
}

} // verus!
