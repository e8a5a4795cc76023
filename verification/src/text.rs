//! Conversions between strings and character vectors.

use vstd::prelude::*;

verus! {

broadcast use vstd::string::group_string_axioms;

/// Appends one character to a string.
///
/// Trusted: `String::push` appends `c` at the end of `s` and changes
/// nothing else.
#[verifier::external_body]
pub(crate) fn push_char(s: &mut String, c: char)
    ensures
        final(s)@ == old(s)@.push(c),
{
    s.push(c)
}

/// The characters of `s`, in order.
pub fn chars_of(s: &str) -> (v: Vec<char>)
    ensures
        v@ == s@,
{
    let mut v: Vec<char> = Vec::new();
    for c in it: s.chars()
        invariant
            v@ == it.seq().take(it.index() as int),
    {
        v.push(c);
    }
    v
}


/// Appends `v` to `out`, character by character.
pub fn push_chars(out: &mut String, v: &[char])
    ensures
        final(out)@ == old(out)@ + v@,
{
    let mut j: usize = 0;
    while j < v.len()
        invariant
            0 <= j <= v@.len(),
            out@ == old(out)@ + v@.subrange(0, j as int),
        decreases v@.len() - j,
    {
        push_char(out, v[j]);
        j = j + 1;
    }
}

/// Appends `v[from..to]` to `out`.
pub fn push_range(out: &mut String, v: &[char], from: usize, to: usize)
    requires
        from <= to <= v@.len(),
    ensures
        final(out)@ == old(out)@ + v@.subrange(from as int, to as int),
{
    let mut j = from;
    while j < to
        invariant
            from <= j <= to <= v@.len(),
            out@ == old(out)@ + v@.subrange(from as int, j as int),
        decreases to - j,
    {
        push_char(out, v[j]);
        proof {
            assert(v@.subrange(from as int, j + 1) =~= v@.subrange(from as int, j as int).push(
                v@[j as int],
            ));
        }
        j = j + 1;
    }
}

/// A string holding the characters of `v`.
pub fn string_of(v: &[char]) -> (s: String)
    ensures
        s@ == v@,
{
    let mut s = String::new();
    push_chars(&mut s, v);
    s
}

/// Whether `l[from..to]` equals `w`.
pub fn range_eq(l: &[char], from: usize, to: usize, w: &[char]) -> (b: bool)
    requires
        from <= to <= l@.len(),
    ensures
        b == (l@.subrange(from as int, to as int) == w@),
{
    if to - from != w.len() {
        return false;
    }
    let mut j: usize = 0;
    while j < w.len()
        invariant
            0 <= j <= w@.len(),
            from <= to <= l@.len(),
            to - from == w@.len(),
            forall|k: int| 0 <= k < j ==> l@[from + k] == w@[k],
        decreases w@.len() - j,
    {
        if l[from + j] != w[j] {
            assert(l@.subrange(from as int, to as int)[j as int] != w@[j as int]);
            return false;
        }
        j = j + 1;
    }
    assert(l@.subrange(from as int, to as int) =~= w@);
    true
}

/// The ASCII lower-case form of a character: `A` to `Z` become `a` to
/// `z`, every other character stays as it is.
pub open spec fn ascii_lower_char(c: char) -> char {
    if 'A' <= c && c <= 'Z' {
        ((c as u32) + 32) as char
    } else {
        c
    }
}

/// The ASCII lower-case form of a text.
pub open spec fn ascii_lower(s: Seq<char>) -> Seq<char> {
    s.map_values(|c: char| ascii_lower_char(c))
}

/// Lower-cases one character.
pub fn lower_char(c: char) -> (r: char)
    ensures
        r == ascii_lower_char(c),
{
    match c {
        'A' => 'a',
        'B' => 'b',
        'C' => 'c',
        'D' => 'd',
        'E' => 'e',
        'F' => 'f',
        'G' => 'g',
        'H' => 'h',
        'I' => 'i',
        'J' => 'j',
        'K' => 'k',
        'L' => 'l',
        'M' => 'm',
        'N' => 'n',
        'O' => 'o',
        'P' => 'p',
        'Q' => 'q',
        'R' => 'r',
        'S' => 's',
        'T' => 't',
        'U' => 'u',
        'V' => 'v',
        'W' => 'w',
        'X' => 'x',
        'Y' => 'y',
        'Z' => 'z',
        _ => c,
    }
}

/// The ASCII lower-case form of `l[from..to]`.
pub fn lower_range(l: &[char], from: usize, to: usize) -> (r: Vec<char>)
    requires
        from <= to <= l@.len(),
    ensures
        r@ == ascii_lower(l@.subrange(from as int, to as int)),
{
    let mut r: Vec<char> = Vec::new();
    let mut j = from;
    while j < to
        invariant
            from <= j <= to <= l@.len(),
            r@ == ascii_lower(l@.subrange(from as int, j as int)),
        decreases to - j,
    {
        r.push(lower_char(l[j]));
        proof {
            assert(ascii_lower(l@.subrange(from as int, j + 1)) =~= ascii_lower(
                l@.subrange(from as int, j as int),
            ).push(ascii_lower_char(l@[j as int])));
        }
        j = j + 1;
    }
    r
}

} // verus!
