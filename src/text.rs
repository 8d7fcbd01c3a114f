//! Character-level plumbing shared by the parsers: turning strings into
//! character vectors and back, lossy decoding of raw bytes, and line splitting.
use vstd::prelude::*;
use vstd::std_specs::iter::IteratorSpec;
use vstd::utf8::{decode_utf8, encode_utf8, valid_utf8};

verus! {

broadcast use vstd::string::group_string_axioms;

/// Relies on `String::push`: appends one character at the end.
#[verifier::external_body]
pub(crate) fn push_char(s: &mut String, c: char)
    ensures
        final(s)@ == old(s)@.push(c),
{
    s.push(c)
}

/// The characters of `s`, in order.
pub fn chars_of(s: &str) -> (r: Vec<char>)
    ensures
        r@ == s@,
{
    let mut out: Vec<char> = Vec::new();
    let mut it = s.chars();
    loop
        invariant
            it.obeys_prophetic_iter_laws(),
            it.decrease() is Some,
            out@ + it.remaining() == s@,
        ensures
            out@ == s@,
        decreases it.decrease()->0,
    {
        match it.next() {
            Some(c) => {
                out.push(c);
            },
            None => {
                assert(out@ =~= s@);
                break;
            },
        }
    }
    out
}

/// A string made of the characters of `cs`.
pub fn string_of(cs: &Vec<char>) -> (r: String)
    ensures
        r@ == cs@,
{
    let mut out = String::new();
    let mut i: usize = 0;
    while i < cs.len()
        invariant
            i <= cs.len(),
            out@ == cs@.take(i as int),
        decreases cs.len() - i,
    {
        push_char(&mut out, cs[i]);
        assert(cs@.take(i as int).push(cs@[i as int]) =~= cs@.take(i + 1));
        i = i + 1;
    }
    assert(cs@.take(cs.len() as int) =~= cs@);
    out
}

/// What `String::from_utf8_lossy` makes of a byte sequence.
pub uninterp spec fn lossy_text(b: Seq<u8>) -> Seq<char>;

/// Relies on `String::from_utf8_lossy`: it never fails, and hands valid
/// UTF-8 back as the text it encodes.
#[verifier::external_body]
fn from_utf8_lossy(b: &Vec<u8>) -> (r: String)
    ensures
        r@ == lossy_text(b@),
        valid_utf8(b@) ==> r@ == decode_utf8(b@),
{
    String::from_utf8_lossy(b.as_slice()).into_owned()
}

/// The display form of a raw identity string: always valid text, with
/// invalid sequences replaced.
pub open spec fn display_form(raw: Seq<u8>) -> Seq<char> {
    lossy_text(raw)
}

/// Turns a raw identity string into presentable text. Total: any byte
/// sequence gives some text, and text that is already valid is kept as is.
pub fn string_from_os(raw: &Vec<u8>) -> (r: String)
    ensures
        r@ == display_form(raw@),
        valid_utf8(raw@) ==> r@ == decode_utf8(raw@),
{
    from_utf8_lossy(raw)
}

/// The UTF-8 encoding of `s`.
pub fn bytes_of(s: &String) -> (r: Vec<u8>)
    ensures
        r@ == encode_utf8(s@),
{
    vstd::slice::slice_to_vec(s.as_str().as_bytes())
}

/// The characters `s[lo..hi]`.
pub fn chars_between(s: &Vec<char>, lo: usize, hi: usize) -> (r: Vec<char>)
    requires
        lo <= hi <= s.len(),
    ensures
        r@ == s@.subrange(lo as int, hi as int),
{
    let mut out: Vec<char> = Vec::new();
    let mut i: usize = lo;
    while i < hi
        invariant
            lo <= i <= hi <= s.len(),
            out@ == s@.subrange(lo as int, i as int),
        decreases hi - i,
    {
        out.push(s[i]);
        assert(s@.subrange(lo as int, i as int).push(s@[i as int]) =~= s@.subrange(
            lo as int,
            i + 1,
        ));
        i = i + 1;
    }
    out
}

/// The pieces of `s` between line breaks, as `str::split('\n')` gives them:
/// there is always at least one, and a trailing break ends in an empty piece.
pub open spec fn lines_of(s: Seq<char>) -> Seq<Seq<char>>
    decreases s.len(),
{
    if s.len() == 0 {
        seq![Seq::empty()]
    } else {
        let ls = lines_of(s.drop_last());
        if s.last() == '\n' {
            ls.push(Seq::empty())
        } else {
            ls.update(ls.len() - 1, ls.last().push(s.last()))
        }
    }
}

/// The character sequences that the vectors of `v` hold.
pub open spec fn views(v: Seq<Vec<char>>) -> Seq<Seq<char>> {
    v.map_values(|x: Vec<char>| x@)
}

/// Splits `s` at each line break.
pub fn split_lines(s: &Vec<char>) -> (r: Vec<Vec<char>>)
    ensures
        views(r@) == lines_of(s@),
{
    let mut lines: Vec<Vec<char>> = Vec::new();
    let mut cur: Vec<char> = Vec::new();
    let mut i: usize = 0;
    assert(s@.take(0) =~= Seq::<char>::empty());
    assert(views(lines@).push(cur@) =~= lines_of(s@.take(0)));
    while i < s.len()
        invariant
            i <= s.len(),
            views(lines@).push(cur@) == lines_of(s@.take(i as int)),
        decreases s.len() - i,
    {
        let c = s[i];
        assert(s@.take(i + 1).drop_last() =~= s@.take(i as int));
        assert(s@.take(i + 1).last() == c);
        if c == '\n' {
            let ghost before = views(lines@);
            let ghost line = cur@;
            lines.push(cur);
            assert(views(lines@) =~= before.push(line));
            cur = Vec::new();
            assert(views(lines@).push(cur@) =~= lines_of(s@.take(i + 1)));
        } else {
            let ghost before = views(lines@);
            cur.push(c);
            assert(views(lines@) =~= before);
            assert(views(lines@).push(cur@) =~= lines_of(s@.take(i + 1)));
        }
        i = i + 1;
    }
    assert(s@.take(s.len() as int) =~= s@);
    let ghost before = views(lines@);
    let ghost line = cur@;
    lines.push(cur);
    assert(views(lines@) =~= before.push(line));
    lines
}

/// `p` occurs in `s` starting at index `i`.
pub open spec fn occurs_at(s: Seq<char>, p: Seq<char>, i: int) -> bool {
    0 <= i && i + p.len() <= s.len() && s.subrange(i, i + p.len()) == p
}

/// `s` begins with `p`.
pub open spec fn starts_with(s: Seq<char>, p: Seq<char>) -> bool {
    occurs_at(s, p, 0)
}

/// `s` holds `p` somewhere.
pub open spec fn contains(s: Seq<char>, p: Seq<char>) -> bool {
    exists|i: int| occurs_at(s, p, i)
}

/// The first index at or after `from` where `p` occurs in `s`.
pub open spec fn find_from(s: Seq<char>, p: Seq<char>, from: int) -> Option<int>
    decreases s.len() + 1 - from,
{
    if from < 0 || from + p.len() > s.len() {
        None
    } else if occurs_at(s, p, from) {
        Some(from)
    } else {
        find_from(s, p, from + 1)
    }
}

/// Whether `p` occurs in `s` at index `i`.
pub fn occurs_at_exec(s: &Vec<char>, p: &Vec<char>, i: usize) -> (r: bool)
    ensures
        r == occurs_at(s@, p@, i as int),
{
    if i > s.len() || p.len() > s.len() - i {
        return false;
    }
    let mut k: usize = 0;
    while k < p.len()
        invariant
            i + p.len() <= s.len(),
            k <= p.len(),
            s@.subrange(i as int, i + k) == p@.take(k as int),
        decreases p.len() - k,
    {
        if s[i + k] != p[k] {
            assert(s@.subrange(i as int, i + p.len())[k as int] != p@[k as int]);
            return false;
        }
        assert(s@.subrange(i as int, i + k + 1) =~= p@.take(k + 1));
        k = k + 1;
    }
    assert(p@.take(p.len() as int) =~= p@);
    true
}

/// The first index at or after `from` where `p` occurs in `s`.
pub fn find(s: &Vec<char>, p: &Vec<char>, from: usize) -> (r: Option<usize>)
    ensures
        r is None <==> find_from(s@, p@, from as int) is None,
        r matches Some(i) ==> find_from(s@, p@, from as int) == Some(i as int),
        r matches Some(i) ==> from <= i && i + p.len() <= s.len(),
{
    if p.len() > s.len() || from > s.len() - p.len() {
        assert(find_from(s@, p@, from as int) is None);
        return None;
    }
    let last = s.len() - p.len();
    let mut i: usize = from;
    loop
        invariant
            from <= i <= last,
            last + p.len() == s.len(),
            find_from(s@, p@, from as int) == find_from(s@, p@, i as int),
        decreases last - i,
    {
        if occurs_at_exec(s, p, i) {
            return Some(i);
        }
        if i == last {
            assert(find_from(s@, p@, i + 1) is None);
            return None;
        }
        i = i + 1;
    }
}

/// Whether `p` occurs anywhere in `s`.
pub fn contains_exec(s: &Vec<char>, p: &Vec<char>) -> (r: bool)
    ensures
        r == contains(s@, p@),
{
    if p.len() > s.len() {
        return false;
    }
    let last = s.len() - p.len();
    let mut i: usize = 0;
    loop
        invariant
            i <= last,
            last + p.len() == s.len(),
            forall|j: int| 0 <= j < i ==> !occurs_at(s@, p@, j),
        decreases last - i,
    {
        if occurs_at_exec(s, p, i) {
            return true;
        }
        if i == last {
            return false;
        }
        i = i + 1;
    }
}

/// Unicode's `White_Space` property, which `str::trim` strips.
pub open spec fn is_white(c: char) -> bool {
    ('\u{9}' <= c && c <= '\u{d}') || c == ' ' || c == '\u{85}' || c == '\u{a0}' || c == '\u{1680}'
        || ('\u{2000}' <= c && c <= '\u{200a}') || c == '\u{2028}' || c == '\u{2029}'
        || c == '\u{202f}' || c == '\u{205f}' || c == '\u{3000}'
}

/// The characters that a trim removes: double quotes, or else white space.
pub open spec fn trimmed_by(quotes: bool) -> spec_fn(char) -> bool {
    if quotes {
        |c: char| c == '"'
    } else {
        |c: char| is_white(c)
    }
}

/// `s` without its leading characters of class `drop`.
pub open spec fn strip_front(s: Seq<char>, drop: spec_fn(char) -> bool) -> Seq<char>
    decreases s.len(),
{
    if s.len() > 0 && drop(s[0]) {
        strip_front(s.drop_first(), drop)
    } else {
        s
    }
}

/// `s` without its trailing characters of class `drop`.
pub open spec fn strip_back(s: Seq<char>, drop: spec_fn(char) -> bool) -> Seq<char>
    decreases s.len(),
{
    if s.len() > 0 && drop(s.last()) {
        strip_back(s.drop_last(), drop)
    } else {
        s
    }
}

/// `s` without white space at either end, as `str::trim` leaves it.
pub open spec fn trim(s: Seq<char>) -> Seq<char> {
    strip_back(strip_front(s, trimmed_by(false)), trimmed_by(false))
}

/// `s` without double quotes at either end, as `str::trim_matches('"')`
/// leaves it.
pub open spec fn unquote(s: Seq<char>) -> Seq<char> {
    strip_back(strip_front(s, trimmed_by(true)), trimmed_by(true))
}

fn in_class(c: char, quotes: bool) -> (r: bool)
    ensures
        r == trimmed_by(quotes)(c),
{
    if quotes {
        c == '"'
    } else {
        ('\u{9}' <= c && c <= '\u{d}') || c == ' ' || c == '\u{85}' || c == '\u{a0}' || c
            == '\u{1680}' || ('\u{2000}' <= c && c <= '\u{200a}') || c == '\u{2028}' || c
            == '\u{2029}' || c == '\u{202f}' || c == '\u{205f}' || c == '\u{3000}'
    }
}

/// `s` with the characters of class `trimmed_by(quotes)` removed at both ends.
pub fn trim_both(s: &Vec<char>, quotes: bool) -> (r: Vec<char>)
    ensures
        r@ == strip_back(strip_front(s@, trimmed_by(quotes)), trimmed_by(quotes)),
{
    let ghost drop = trimmed_by(quotes);
    let mut lo: usize = 0;
    assert(s@.skip(0) =~= s@);
    while lo < s.len() && in_class(s[lo], quotes)
        invariant
            lo <= s.len(),
            drop == trimmed_by(quotes),
            strip_front(s@, drop) == strip_front(s@.skip(lo as int), drop),
        decreases s.len() - lo,
    {
        assert(s@.skip(lo as int)[0] == s@[lo as int]);
        assert(s@.skip(lo as int).drop_first() =~= s@.skip(lo + 1));
        lo = lo + 1;
    }
    let ghost front = s@.skip(lo as int);
    assert(strip_front(front, drop) == front);
    let mut hi: usize = s.len();
    assert(front =~= s@.subrange(lo as int, hi as int));
    while hi > lo && in_class(s[hi - 1], quotes)
        invariant
            lo <= hi <= s.len(),
            drop == trimmed_by(quotes),
            strip_back(front, drop) == strip_back(s@.subrange(lo as int, hi as int), drop),
        decreases hi - lo,
    {
        assert(s@.subrange(lo as int, hi as int).last() == s@[hi - 1]);
        assert(s@.subrange(lo as int, hi as int).drop_last() =~= s@.subrange(
            lo as int,
            hi - 1,
        ));
        hi = hi - 1;
    }
    chars_between(s, lo, hi)
}

/// `s` with every trailing copy of `p` removed, as `str::trim_end_matches`
/// leaves it.
pub open spec fn strip_suffixes(s: Seq<char>, p: Seq<char>) -> Seq<char>
    decreases s.len(),
{
    if p.len() > 0 && occurs_at(s, p, s.len() - p.len()) {
        strip_suffixes(s.subrange(0, s.len() - p.len()), p)
    } else {
        s
    }
}

/// `s[from..]` with every trailing copy of `p` removed.
pub fn strip_suffixes_from(s: &Vec<char>, from: usize, p: &Vec<char>) -> (r: Vec<char>)
    requires
        from <= s.len(),
    ensures
        r@ == strip_suffixes(s@.skip(from as int), p@),
{
    let mut hi: usize = s.len();
    assert(s@.skip(from as int) =~= s@.subrange(from as int, hi as int));
    while p.len() > 0 && p.len() <= hi - from && occurs_at_exec(s, p, hi - p.len())
        invariant
            from <= hi <= s.len(),
            strip_suffixes(s@.skip(from as int), p@) == strip_suffixes(
                s@.subrange(from as int, hi as int),
                p@,
            ),
        decreases hi,
    {
        let ghost t = s@.subrange(from as int, hi as int);
        assert(t.subrange(t.len() - p.len(), t.len() as int) =~= s@.subrange(
            hi - p.len(),
            hi as int,
        ));
        assert(t.subrange(0, t.len() - p.len()) =~= s@.subrange(from as int, hi - p.len()));
        hi = hi - p.len();
    }
    let ghost t = s@.subrange(from as int, hi as int);
    assert(!(p@.len() > 0 && occurs_at(t, p@, t.len() - p@.len()))) by {
        if p@.len() > 0 && occurs_at(t, p@, t.len() - p@.len()) {
            assert(t.subrange(t.len() - p.len(), t.len() as int) =~= s@.subrange(
                hi - p.len(),
                hi as int,
            ));
        }
    }
    chars_between(s, from, hi)
}

} // verus!
