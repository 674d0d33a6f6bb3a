//! Character-level helpers on text: whitespace, trimming, lines, truncation.
use vstd::prelude::*;
use vstd::string::StringSliceAdditionalSpecFns;
use vstd::utf8::{
    decode_utf8, encode_utf8, encode_utf8_decode_utf8, encode_utf8_valid_utf8, is_char_boundary,
    valid_utf8,
};

verus! {

/// Unicode `White_Space`, the set that `char::is_whitespace` and `str::trim` use.
pub open spec fn is_ws(c: char) -> bool {
    let u = c as u32;
    ||| u == 0x20
    ||| (0x09 <= u && u <= 0x0d)
    ||| u == 0x85
    ||| u == 0xa0
    ||| u == 0x1680
    ||| (0x2000 <= u && u <= 0x200a)
    ||| u == 0x2028
    ||| u == 0x2029
    ||| u == 0x202f
    ||| u == 0x205f
    ||| u == 0x3000
}

/// `s` without its leading whitespace.
pub open spec fn trim_start(s: Seq<char>) -> Seq<char>
    decreases s.len(),
{
    if s.len() > 0 && is_ws(s[0]) {
        trim_start(s.drop_first())
    } else {
        s
    }
}

/// `s` without its trailing whitespace.
pub open spec fn trim_end(s: Seq<char>) -> Seq<char>
    decreases s.len(),
{
    if s.len() > 0 && is_ws(s.last()) {
        trim_end(s.drop_last())
    } else {
        s
    }
}

/// `s` without leading and trailing whitespace.
pub open spec fn trim(s: Seq<char>) -> Seq<char> {
    trim_end(trim_start(s))
}

/// True when every character of `s` is whitespace.
pub open spec fn all_ws(s: Seq<char>) -> bool {
    forall|i: int| 0 <= i < s.len() ==> is_ws(#[trigger] s[i])
}

/// The largest character boundary of `bytes` at or below `max`.
pub open spec fn cut_point(bytes: Seq<u8>, max: int) -> int
    decreases max,
{
    if max <= 0 {
        0
    } else if is_char_boundary(bytes, max) {
        max
    } else {
        cut_point(bytes, max - 1)
    }
}

/// `s` when its UTF-8 encoding has at most `max` bytes; otherwise the
/// characters of its first `max` bytes, cut back to a character boundary.
pub open spec fn truncated(s: Seq<char>, max: nat) -> Seq<char> {
    let b = encode_utf8(s);
    if b.len() <= max {
        s
    } else {
        decode_utf8(b.subrange(0, cut_point(b, max as int)))
    }
}

/// Splits `s` at each `'\n'`, left to right: the lines completed so far and
/// the line still open.
pub open spec fn scan_lines(s: Seq<char>) -> (Seq<Seq<char>>, Seq<char>)
    decreases s.len(),
{
    if s.len() == 0 {
        (Seq::empty(), Seq::empty())
    } else {
        let (done, cur) = scan_lines(s.drop_last());
        if s.last() == '\n' {
            (done.push(cur), Seq::empty())
        } else {
            (done, cur.push(s.last()))
        }
    }
}

/// The pieces of `s` between line breaks. A trailing `'\r'` stays on its
/// line and an empty last piece is kept: both vanish once a line is trimmed,
/// so they never change which lines carry a suggestion.
pub open spec fn split_lines(s: Seq<char>) -> Seq<Seq<char>> {
    let (done, cur) = scan_lines(s);
    done.push(cur)
}

pub fn is_whitespace(c: char) -> (r: bool)
    ensures
        r == is_ws(c),
{
    let u = c as u32;
    u == 0x20 || (0x09 <= u && u <= 0x0d) || u == 0x85 || u == 0xa0 || u == 0x1680 || (0x2000
        <= u && u <= 0x200a) || u == 0x2028 || u == 0x2029 || u == 0x202f || u == 0x205f || u
        == 0x3000
}

/// The characters of `s`, one per element.
pub fn chars_of(s: &str) -> (v: Vec<char>)
    ensures
        v@ == s@,
{
    broadcast use vstd::string::group_string_axioms;

    let mut v: Vec<char> = Vec::new();
    for c in it: s.chars()
        invariant
            it.seq() == s@,
            v@ == it.seq().subrange(0, it.index() as int),
    {
        v.push(c);
        assert(v@ =~= it.seq().subrange(0, it.index() + 1));
    }
    assert(v@ =~= s@);
    v
}

/// Bounds of `trim(v[a..b])` inside `v`.
pub fn trim_bounds(v: &Vec<char>, a: usize, b: usize) -> (r: (usize, usize))
    requires
        a <= b <= v@.len(),
    ensures
        a <= r.0 <= r.1 <= b,
        v@.subrange(r.0 as int, r.1 as int) == trim(v@.subrange(a as int, b as int)),
{
    let mut lo = a;
    while lo < b && is_whitespace(v[lo])
        invariant
            a <= lo <= b <= v@.len(),
            trim_start(v@.subrange(a as int, b as int)) == trim_start(
                v@.subrange(lo as int, b as int),
            ),
        decreases b - lo,
    {
        assert(v@.subrange(lo as int, b as int).drop_first() =~= v@.subrange(
            lo + 1,
            b as int,
        ));
        lo = lo + 1;
    }
    assert(trim_start(v@.subrange(lo as int, b as int)) == v@.subrange(lo as int, b as int));
    let mut hi = b;
    while hi > lo && is_whitespace(v[hi - 1])
        invariant
            a <= lo <= hi <= b <= v@.len(),
            trim_end(v@.subrange(lo as int, b as int)) == trim_end(
                v@.subrange(lo as int, hi as int),
            ),
        decreases hi - lo,
    {
        assert(v@.subrange(lo as int, hi as int).drop_last() =~= v@.subrange(
            lo as int,
            hi - 1,
        ));
        hi = hi - 1;
    }
    assert(trim_end(v@.subrange(lo as int, hi as int)) == v@.subrange(lo as int, hi as int));
    (lo, hi)
}

/// The first `max_bytes` bytes of `diff`, or all of it when it is shorter.
/// A cut that would fall inside a character moves back to the start of
/// that character, so the result is always whole characters.
pub fn truncate_diff<'a>(diff: &'a str, max_bytes: usize) -> (r: &'a str)
    ensures
        r@ == truncated(diff@, max_bytes as nat),
        diff.spec_bytes().len() <= max_bytes ==> r@ == diff@,
        diff.spec_bytes().len() > max_bytes ==> {
            let k = cut_point(diff.spec_bytes(), max_bytes as int);
            &&& 0 <= k <= max_bytes
            &&& is_char_boundary(diff.spec_bytes(), k)
            &&& forall|j: int|
                k < j <= max_bytes ==> !#[trigger] is_char_boundary(diff.spec_bytes(), j)
            &&& r.spec_bytes() == diff.spec_bytes().subrange(0, k)
        },
{
    let n = diff.as_bytes().len();
    if n <= max_bytes {
        diff
    } else {
        let ghost b = diff.spec_bytes();
        proof {
            encode_utf8_valid_utf8(diff@);
            lemma_cut_point(b, max_bytes as int);
        }
        let mut k = max_bytes;
        while k > 0 && !diff.is_char_boundary(k)
            invariant
                k <= max_bytes,
                cut_point(b, max_bytes as int) == cut_point(b, k as int),
                b == diff.spec_bytes(),
            decreases k,
        {
            k = k - 1;
        }
        assert(cut_point(b, k as int) == k as int);
        let (head, _) = diff.split_at(k);
        proof {
            assert(head.spec_bytes() =~= b.subrange(0, k as int));
            assert(encode_utf8(head@) == b.subrange(0, k as int));
            encode_utf8_decode_utf8(head@);
            assert(b == encode_utf8(diff@));
            assert(n as int == b.len());
        }
        head
    }
}

/// What [`cut_point`] gives: a boundary, at or below `max`, with no
/// boundary between it and `max`.
pub proof fn lemma_cut_point(bytes: Seq<u8>, max: int)
    requires
        valid_utf8(bytes),
    ensures
        0 <= cut_point(bytes, max),
        max >= 0 ==> cut_point(bytes, max) <= max,
        is_char_boundary(bytes, cut_point(bytes, max)),
        forall|j: int| cut_point(bytes, max) < j <= max ==> !#[trigger] is_char_boundary(bytes, j),
    decreases max,
{
    if max > 0 && !is_char_boundary(bytes, max) {
        lemma_cut_point(bytes, max - 1);
    }
}

/// Whether `a` and `b` hold the same characters.
pub fn text_eq(a: &str, b: &str) -> (r: bool)
    ensures
        r == (a@ == b@),
{
    let n = a.unicode_len();
    let m = b.unicode_len();
    if n != m {
        return false;
    }
    let mut i: usize = 0;
    while i < n
        invariant
            n == a@.len(),
            n == b@.len(),
            i <= n,
            forall|j: int| 0 <= j < i ==> a@[j] == b@[j],
        decreases n - i,
    {
        if a.get_char(i) != b.get_char(i) {
            return false;
        }
        i = i + 1;
    }
    assert(a@ =~= b@);
    true
}

/// `l` without one trailing carriage return.
pub open spec fn strip_cr(l: Seq<char>) -> Seq<char> {
    if l.len() > 0 && l.last() == '\r' {
        l.drop_last()
    } else {
        l
    }
}

/// The lines of `s` as `str::lines` gives them: split at `'\n'` or
/// `"\r\n"`, with no empty line after a final line break.
pub open spec fn text_lines(s: Seq<char>) -> Seq<Seq<char>> {
    let (done, cur) = scan_lines(s);
    let d = done.map_values(|l: Seq<char>| strip_cr(l));
    if cur.len() == 0 {
        d
    } else {
        d.push(cur)
    }
}

pub open spec fn string_views(v: Seq<String>) -> Seq<Seq<char>> {
    v.map_values(|s: String| s@)
}

pub proof fn lemma_string_views_push(v: Seq<String>, s: String)
    ensures
        string_views(v.push(s)) == string_views(v).push(s@),
{
    assert(string_views(v.push(s)) =~= string_views(v).push(s@));
}

/// `s` without leading and trailing whitespace.
pub fn trimmed(s: &str) -> (r: String)
    ensures
        r@ == trim(s@),
{
    let v = chars_of(s);
    let (lo, hi) = trim_bounds(&v, 0, v.len());
    assert(v@.subrange(0, v@.len() as int) =~= v@);
    String::from_str(s.substring_char(lo, hi))
}

/// True when `s` is empty or holds only whitespace.
pub fn is_blank(s: &str) -> (r: bool)
    ensures
        r == (trim(s@).len() == 0),
{
    let v = chars_of(s);
    let (lo, hi) = trim_bounds(&v, 0, v.len());
    assert(v@.subrange(0, v@.len() as int) =~= v@);
    lo == hi
}

/// The lines of `s`, as [`text_lines`] states them.
pub fn lines_of(s: &str) -> (r: Vec<String>)
    ensures
        string_views(r@) == text_lines(s@),
{
    let v = chars_of(s);
    let n = v.len();
    let mut out: Vec<String> = Vec::new();
    let mut start: usize = 0;
    let mut i: usize = 0;
    while i < n
        invariant
            n == v@.len(),
            v@ == s@,
            start <= i <= n,
            scan_lines(v@.subrange(0, i as int)).1 == v@.subrange(start as int, i as int),
            string_views(out@) == scan_lines(v@.subrange(0, i as int)).0.map_values(
                |l: Seq<char>| strip_cr(l),
            ),
        decreases n - i,
    {
        let ghost prev = v@.subrange(0, i as int);
        assert(v@.subrange(0, i + 1).drop_last() =~= prev);
        if v[i] == '\n' {
            let ghost done = scan_lines(prev).0;
            let ghost cur = scan_lines(prev).1;
            let end = if i > start && v[i - 1] == '\r' {
                assert(cur.drop_last() =~= v@.subrange(start as int, i - 1));
                i - 1
            } else {
                i
            };
            let m = String::from_str(s.substring_char(start, end));
            proof {
                lemma_string_views_push(out@, m);
                assert(done.push(cur).map_values(|l: Seq<char>| strip_cr(l)) =~= done.map_values(
                    |l: Seq<char>| strip_cr(l),
                ).push(strip_cr(cur)));
            }
            out.push(m);
            start = i + 1;
        } else {
            assert(v@.subrange(start as int, i as int).push(v[i as int]) =~= v@.subrange(
                start as int,
                i + 1,
            ));
        }
        i = i + 1;
    }
    assert(v@.subrange(0, n as int) =~= v@);
    if start < n {
        let m = String::from_str(s.substring_char(start, n));
        proof {
            lemma_string_views_push(out@, m);
        }
        out.push(m);
    }
    out
}

} // verus!
