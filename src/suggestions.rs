//! Extraction of candidate messages from a model's free-form reply.
use crate::text::{all_ws, chars_of, lemma_string_views_push, string_views, scan_lines, split_lines, trim, trim_bounds, trim_start};
use vstd::prelude::*;

verus! {

/// What follows a leading `1.`, `2.`, `3.`, `1)`, `2)` or `3)` marker.
pub open spec fn strip_marker(t: Seq<char>) -> Option<Seq<char>> {
    if t.len() >= 2 && (t[0] == '1' || t[0] == '2' || t[0] == '3') && (t[1] == '.' || t[1]
        == ')') {
        Some(t.subrange(2, t.len() as int))
    } else {
        None
    }
}

/// `s` without one leading and one trailing `c`, where present.
pub open spec fn strip_layer(s: Seq<char>, c: char) -> Seq<char> {
    let a = if s.len() > 0 && s[0] == c {
        s.drop_first()
    } else {
        s
    };
    if a.len() > 0 && a.last() == c {
        a.drop_last()
    } else {
        a
    }
}

/// The text after a marker, trimmed, without one layer of backticks, then
/// without one layer of double quotes, and trimmed again.
pub open spec fn clean(rest: Seq<char>) -> Seq<char> {
    trim(strip_layer(strip_layer(trim(rest), '`'), '"'))
}

/// The suggestion that `line` carries, if any.
pub open spec fn line_suggestion(line: Seq<char>) -> Option<Seq<char>> {
    match strip_marker(trim(line)) {
        Some(rest) => if clean(rest).len() > 0 {
            Some(clean(rest))
        } else {
            None
        },
        None => None,
    }
}

/// The suggestions of `lines`, in line order.
pub open spec fn numbered(lines: Seq<Seq<char>>) -> Seq<Seq<char>>
    decreases lines.len(),
{
    if lines.len() == 0 {
        Seq::empty()
    } else {
        let prev = numbered(lines.drop_last());
        match line_suggestion(lines.last()) {
            Some(m) => prev.push(m),
            None => prev,
        }
    }
}

/// The suggestions of a whole reply: its numbered lines, or else the whole
/// trimmed reply as the only one, or else none.
pub open spec fn suggestions_of(reply: Seq<char>) -> Seq<Seq<char>> {
    let found = numbered(split_lines(reply));
    if found.len() > 0 {
        found
    } else if trim(reply).len() > 0 {
        seq![trim(reply)]
    } else {
        Seq::empty()
    }
}

/// Bounds of `strip_layer(v[a..b], c)` inside `v`.
fn strip_layer_bounds(v: &Vec<char>, a: usize, b: usize, c: char) -> (r: (usize, usize))
    requires
        a <= b <= v@.len(),
    ensures
        a <= r.0 <= r.1 <= b,
        v@.subrange(r.0 as int, r.1 as int) == strip_layer(v@.subrange(a as int, b as int), c),
{
    let ghost s = v@.subrange(a as int, b as int);
    let mut lo = a;
    if lo < b && v[lo] == c {
        assert(s.drop_first() =~= v@.subrange(a + 1, b as int));
        lo = lo + 1;
    }
    let ghost t = v@.subrange(lo as int, b as int);
    let mut hi = b;
    if hi > lo && v[hi - 1] == c {
        assert(t.drop_last() =~= v@.subrange(lo as int, b - 1));
        hi = hi - 1;
    }
    (lo, hi)
}

/// Bounds of the suggestion that `v[a..b]` carries, if any.
fn line_bounds(v: &Vec<char>, a: usize, b: usize) -> (r: Option<(usize, usize)>)
    requires
        a <= b <= v@.len(),
    ensures
        match r {
            Some((lo, hi)) => lo <= hi <= v@.len() && line_suggestion(
                v@.subrange(a as int, b as int),
            ) == Some(v@.subrange(lo as int, hi as int)),
            None => line_suggestion(v@.subrange(a as int, b as int)) is None,
        },
{
    let (lo, hi) = trim_bounds(v, a, b);
    let ghost t = v@.subrange(lo as int, hi as int);
    if hi - lo >= 2 && (v[lo] == '1' || v[lo] == '2' || v[lo] == '3') && (v[lo + 1] == '.'
        || v[lo + 1] == ')') {
        assert(t.subrange(2, t.len() as int) =~= v@.subrange(lo + 2, hi as int));
        let (rest_lo, rest_hi) = trim_bounds(v, lo + 2, hi);
        let (tick_lo, tick_hi) = strip_layer_bounds(v, rest_lo, rest_hi, '`');
        let (quote_lo, quote_hi) = strip_layer_bounds(v, tick_lo, tick_hi, '"');
        let (msg_lo, msg_hi) = trim_bounds(v, quote_lo, quote_hi);
        if msg_lo < msg_hi {
            Some((msg_lo, msg_hi))
        } else {
            None
        }
    } else {
        None
    }
}

/// Extracts the candidate messages of a model reply, in order.
///
/// A line counts when, trimmed, it starts with `1.`, `2.`, `3.`, `1)`, `2)`
/// or `3)`; its text after the marker is cleaned (see [`clean`]) and kept
/// when not empty. When no line counts, the trimmed reply is the single
/// candidate, unless it is empty.
pub fn parse_suggestions(response: &str) -> (r: Vec<String>)
    ensures
        string_views(r@) == suggestions_of(response@),
{
    let v = chars_of(response);
    let n = v.len();
    let mut out: Vec<String> = Vec::new();
    let mut start: usize = 0;
    let mut i: usize = 0;
    while i < n
        invariant
            n == v@.len(),
            v@ == response@,
            start <= i <= n,
            scan_lines(v@.subrange(0, i as int)).1 == v@.subrange(start as int, i as int),
            string_views(out@) == numbered(scan_lines(v@.subrange(0, i as int)).0),
        decreases n - i,
    {
        let ghost prev = v@.subrange(0, i as int);
        assert(v@.subrange(0, i + 1).drop_last() =~= prev);
        if v[i] == '\n' {
            let ghost done = scan_lines(prev).0;
            let ghost cur = scan_lines(prev).1;
            assert(done.push(cur).drop_last() =~= done);
            match line_bounds(&v, start, i) {
                Some((lo, hi)) => {
                    let m = String::from_str(response.substring_char(lo, hi));
                    proof {
                        lemma_string_views_push(out@, m);
                    }
                    out.push(m);
                },
                None => {},
            }
            start = i + 1;
        } else {
            assert(v@.subrange(start as int, i as int).push(v[i as int]) =~= v@.subrange(
                start as int,
                i + 1,
            ));
        }
        i = i + 1;
    }
    assert(v@.subrange(0, n as int) =~= v@);
    let ghost done = scan_lines(v@).0;
    let ghost cur = scan_lines(v@).1;
    assert(split_lines(v@).drop_last() =~= done);
    match line_bounds(&v, start, n) {
        Some((lo, hi)) => {
            let m = String::from_str(response.substring_char(lo, hi));
            proof {
                lemma_string_views_push(out@, m);
            }
            out.push(m);
        },
        None => {},
    }
    if out.len() == 0 {
        let (lo, hi) = trim_bounds(&v, 0, n);
        assert(v@.subrange(0, n as int) =~= v@);
        if lo < hi {
            let m = String::from_str(response.substring_char(lo, hi));
            proof {
                lemma_string_views_push(out@, m);
            }
            out.push(m);
            assert(string_views(out@) =~= seq![trim(response@)]);
        } else {
            assert(string_views(out@) =~= Seq::<Seq<char>>::empty());
        }
    }
    out
}

proof fn lemma_trim_start_all_ws(s: Seq<char>)
    requires
        all_ws(s),
    ensures
        trim_start(s).len() == 0,
    decreases s.len(),
{
    if s.len() > 0 {
        assert(all_ws(s.drop_first()));
        lemma_trim_start_all_ws(s.drop_first());
    }
}

proof fn lemma_scan_all_ws(s: Seq<char>)
    requires
        all_ws(s),
    ensures
        all_ws(scan_lines(s).1),
        forall|i: int| 0 <= i < scan_lines(s).0.len() ==> all_ws(#[trigger] scan_lines(s).0[i]),
    decreases s.len(),
{
    if s.len() > 0 {
        assert(all_ws(s.drop_last()));
        lemma_scan_all_ws(s.drop_last());
    }
}

proof fn lemma_numbered_none(lines: Seq<Seq<char>>)
    requires
        forall|i: int| 0 <= i < lines.len() ==> all_ws(#[trigger] lines[i]),
    ensures
        numbered(lines).len() == 0,
    decreases lines.len(),
{
    if lines.len() > 0 {
        let last = lines.last();
        assert(all_ws(lines[lines.len() - 1]));
        lemma_trim_start_all_ws(last);
        assert(trim(last).len() == 0);
        lemma_numbered_none(lines.drop_last());
    }
}

/// How many of `lines` carry a suggestion.
pub open spec fn suggestion_line_count(lines: Seq<Seq<char>>) -> nat
    decreases lines.len(),
{
    if lines.len() == 0 {
        0
    } else {
        suggestion_line_count(lines.drop_last()) + if line_suggestion(lines.last()) is Some {
            1nat
        } else {
            0nat
        }
    }
}

proof fn lemma_numbered_len(lines: Seq<Seq<char>>)
    ensures
        numbered(lines).len() == suggestion_line_count(lines),
    decreases lines.len(),
{
    if lines.len() > 0 {
        lemma_numbered_len(lines.drop_last());
    }
}

/// When at least one line of a reply carries a numbered suggestion, the
/// reply's suggestions are exactly those of its lines, one per such line, in
/// line order, each with its marker and decoration removed.
pub proof fn lemma_numbered_lines_kept(reply: Seq<char>)
    requires
        numbered(split_lines(reply)).len() > 0,
    ensures
        suggestions_of(reply) == numbered(split_lines(reply)),
        suggestions_of(reply).len() == suggestion_line_count(split_lines(reply)),
{
    lemma_numbered_len(split_lines(reply));
}

/// A reply with no numbered line and some non-blank text yields exactly one
/// suggestion: the trimmed reply.
pub proof fn lemma_unnumbered_reply_whole(reply: Seq<char>)
    requires
        numbered(split_lines(reply)).len() == 0,
        trim(reply).len() > 0,
    ensures
        suggestions_of(reply) == seq![trim(reply)],
{
}

/// An empty or all-whitespace reply yields no suggestion.
pub proof fn lemma_blank_reply_empty(reply: Seq<char>)
    requires
        all_ws(reply),
    ensures
        suggestions_of(reply).len() == 0,
{
    lemma_scan_all_ws(reply);
    let lines = split_lines(reply);
    assert forall|i: int| 0 <= i < lines.len() implies all_ws(#[trigger] lines[i]) by {
        if i < lines.len() - 1 {
            assert(lines[i] == scan_lines(reply).0[i]);
        }
    }
    lemma_numbered_none(lines);
    lemma_trim_start_all_ws(reply);
}

} // verus!
