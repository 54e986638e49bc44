use crate::search::{as_ints, opt_int};
use vstd::prelude::*;

verus! {

/// How a span of the text is drawn.
#[derive(PartialEq, Eq, Structural, Clone, Copy, Debug)]
pub enum SpanKind {
    Plain,
    Match,
    Current,
}

/// The byte range `start..end` of the text, drawn as `kind`.
#[derive(PartialEq, Eq, Structural, Clone, Copy, Debug)]
pub struct Span {
    pub start: usize,
    pub end: usize,
    pub kind: SpanKind,
}

pub open spec fn span_view(s: Span) -> (int, int, SpanKind) {
    (s.start as int, s.end as int, s.kind)
}

/// Matches of length `qlen`, ascending and apart, all inside `0..len`.
pub open spec fn spaced(ms: Seq<int>, qlen: int, len: int) -> bool {
    &&& forall|k: int| 0 <= k < ms.len() ==> 0 <= #[trigger] ms[k] && ms[k] + qlen <= len
    &&& forall|k: int| 0 <= k < ms.len() - 1 ==> #[trigger] ms[k] + qlen <= ms[k + 1]
}

/// The spans from byte `last` on, where the matches before the `k`th are
/// already drawn: a plain gap before each match when it is not empty, the
/// match itself, and a plain tail when it is not empty.
pub open spec fn spans_after(
    ms: Seq<int>,
    qlen: int,
    current: Option<int>,
    k: int,
    last: int,
    len: int,
) -> Seq<(int, int, SpanKind)>
    decreases ms.len() - k,
{
    if k < 0 || k >= ms.len() {
        if last < len {
            seq![(last, len, SpanKind::Plain)]
        } else {
            Seq::empty()
        }
    } else {
        let gap = if last < ms[k] {
            seq![(last, ms[k], SpanKind::Plain)]
        } else {
            Seq::empty()
        };
        let kind = if current == Some(k) {
            SpanKind::Current
        } else {
            SpanKind::Match
        };
        gap + seq![(ms[k], ms[k] + qlen, kind)] + spans_after(ms, qlen, current, k + 1, ms[k] + qlen, len)
    }
}

/// How a text of `len` bytes is cut for drawing, given the matches of a
/// query of `qlen` bytes and the index of the selected match.
pub open spec fn projection(len: int, ms: Seq<int>, qlen: int, current: Option<int>) -> Seq<
    (int, int, SpanKind),
> {
    if ms.len() == 0 || qlen == 0 {
        seq![(0, len, SpanKind::Plain)]
    } else {
        spans_after(ms, qlen, current, 0, 0, len)
    }
}

/// `s` covers `from..to` with non-empty spans laid end to end, and no two
/// plain spans stand side by side.
pub open spec fn tiles(s: Seq<(int, int, SpanKind)>, from: int, to: int) -> bool {
    &&& s.len() == 0 ==> from == to
    &&& s.len() > 0 ==> s[0].0 == from && s.last().1 == to
    &&& forall|j: int| 0 <= j < s.len() ==> (#[trigger] s[j]).0 < s[j].1
    &&& forall|j: int| 0 <= j < s.len() - 1 ==> #[trigger] joined(s, j)
}

/// The `j`th span ends where the next begins, and they are not both plain.
pub open spec fn joined(s: Seq<(int, int, SpanKind)>, j: int) -> bool {
    &&& s[j].1 == s[j + 1].0
    &&& !(s[j].2 == SpanKind::Plain && s[j + 1].2 == SpanKind::Plain)
}

proof fn lemma_tiles_concat(
    a: Seq<(int, int, SpanKind)>,
    b: Seq<(int, int, SpanKind)>,
    x: int,
    y: int,
    z: int,
)
    requires
        tiles(a, x, y),
        tiles(b, y, z),
        a.len() > 0 && b.len() > 0 ==> !(a.last().2 == SpanKind::Plain && b[0].2
            == SpanKind::Plain),
    ensures
        tiles(a + b, x, z),
{
    let s = a + b;
    assert forall|j: int| 0 <= j < s.len() implies (#[trigger] s[j]).0 < s[j].1 by {
        if j >= a.len() {
            assert(s[j] == b[j - a.len()]);
        }
    }
    assert forall|j: int| 0 <= j < s.len() - 1 implies #[trigger] joined(s, j) by {
        if j >= a.len() {
            assert(joined(b, j - a.len()));
            assert(s[j] == b[j - a.len()]);
            assert(s[j + 1] == b[j + 1 - a.len()]);
        } else if j == a.len() - 1 {
            assert(s[j + 1] == b[0]);
        } else {
            assert(joined(a, j));
        }
    }
    if a.len() == 0 {
        assert(s == b);
    }
    if b.len() == 0 {
        assert(s == a);
    }
}

proof fn lemma_spans_after_tile(
    ms: Seq<int>,
    qlen: int,
    current: Option<int>,
    k: int,
    last: int,
    len: int,
)
    requires
        spaced(ms, qlen, len),
        qlen > 0,
        0 <= k <= ms.len(),
        0 <= last <= len,
        k < ms.len() ==> last <= ms[k],
    ensures
        tiles(spans_after(ms, qlen, current, k, last, len), last, len),
        k < ms.len() ==> spans_after(ms, qlen, current, k, last, len)[0].0 == last,
    decreases ms.len() - k,
{
    if k < ms.len() {
        let next = ms[k] + qlen;
        if k + 1 < ms.len() {
            assert(ms[k] + qlen <= ms[k + 1]);
        }
        lemma_spans_after_tile(ms, qlen, current, k + 1, next, len);
        let kind = if current == Some(k) {
            SpanKind::Current
        } else {
            SpanKind::Match
        };
        let mark = seq![(ms[k], next, kind)];
        let rest = spans_after(ms, qlen, current, k + 1, next, len);
        lemma_tiles_concat(mark, rest, ms[k], next, len);
        if last < ms[k] {
            let gap = seq![(last, ms[k], SpanKind::Plain)];
            lemma_tiles_concat(gap, mark + rest, last, ms[k], len);
            assert(spans_after(ms, qlen, current, k, last, len) == gap + (mark + rest));
        } else {
            assert(spans_after(ms, qlen, current, k, last, len) == mark + rest);
        }
    }
}

/// With at least one match, the spans cover the whole text end to end: none
/// is empty, a match at either end leaves no empty span there, and no empty
/// span stands between adjacent matches. Without matches, or with an empty
/// query, the whole text is one plain span.
pub proof fn lemma_projection_tiles(len: int, ms: Seq<int>, qlen: int, current: Option<int>)
    requires
        spaced(ms, qlen, len),
        0 <= len,
    ensures
        ms.len() > 0 && qlen > 0 ==> tiles(projection(len, ms, qlen, current), 0, len),
        ms.len() == 0 || qlen == 0 ==> projection(len, ms, qlen, current) == seq![
            (0int, len, SpanKind::Plain),
        ],
{
    if ms.len() > 0 && qlen > 0 {
        lemma_spans_after_tile(ms, qlen, current, 0, 0, len);
    }
}

/// Whether `matches` fit a text of `text_len` bytes as [`highlight_spans`]
/// needs them to.
pub fn matches_fit(matches: &Vec<usize>, query_len: usize, text_len: usize) -> (r: bool)
    ensures
        r == spaced(as_ints(matches@), query_len as int, text_len as int),
{
    let n = matches.len();
    let mut k: usize = 0;
    while k < n
        invariant
            n == matches@.len(),
            k <= n,
            forall|j: int| 0 <= j < k ==> 0 <= #[trigger] as_ints(matches@)[j] && as_ints(matches@)[j]
                + query_len <= text_len,
            forall|j: int|
                0 <= j < k && j < n - 1 ==> #[trigger] as_ints(matches@)[j] + query_len <= as_ints(
                    matches@,
                )[j + 1],
        decreases n - k,
    {
        let m = matches[k];
        if query_len > text_len || m > text_len - query_len {
            assert(!(as_ints(matches@)[k as int] + query_len <= text_len));
            return false;
        }
        if k + 1 < n && m + query_len > matches[k + 1] {
            assert(!(as_ints(matches@)[k as int] + query_len <= as_ints(matches@)[k + 1]));
            return false;
        }
        k = k + 1;
    }
    true
}

/// Cuts a text of `text_len` bytes into spans for drawing: plain text, the
/// matches of a query of `query_len` bytes, and the selected match.
pub fn highlight_spans(
    text_len: usize,
    matches: &Vec<usize>,
    query_len: usize,
    current: Option<usize>,
) -> (r: Vec<Span>)
    requires
        spaced(as_ints(matches@), query_len as int, text_len as int),
    ensures
        r@.map_values(|s: Span| span_view(s)) == projection(
            text_len as int,
            as_ints(matches@),
            query_len as int,
            opt_int(current),
        ),
{
    let mut out: Vec<Span> = Vec::new();
    let ghost ms = as_ints(matches@);
    let ghost cur = opt_int(current);
    if matches.len() == 0 || query_len == 0 {
        out.push(Span { start: 0, end: text_len, kind: SpanKind::Plain });
        assert(out@.map_values(|s: Span| span_view(s)) =~= seq![(0int, text_len as int, SpanKind::Plain)]);
        return out;
    }
    let n = matches.len();
    let mut last: usize = 0;
    let mut k: usize = 0;
    assert(out@.map_values(|s: Span| span_view(s)) + spans_after(ms, query_len as int, cur, 0, 0, text_len as int)
        =~= spans_after(ms, query_len as int, cur, 0, 0, text_len as int));
    while k < n
        invariant
            n == matches@.len(),
            ms == as_ints(matches@),
            cur == opt_int(current),
            spaced(ms, query_len as int, text_len as int),
            k <= n,
            last <= text_len,
            out@.map_values(|s: Span| span_view(s)) + spans_after(ms, query_len as int, cur, k as int, last as int, text_len as int)
                == spans_after(ms, query_len as int, cur, 0, 0, text_len as int),
        decreases n - k,
    {
        let ghost before = out@.map_values(|s: Span| span_view(s));
        let index = matches[k];
        assert(ms[k as int] == index);
        if index > last {
            out.push(Span { start: last, end: index, kind: SpanKind::Plain });
        }
        let kind = if current == Some(k) {
            SpanKind::Current
        } else {
            SpanKind::Match
        };
        out.push(Span { start: index, end: index + query_len, kind });
        assert(out@.map_values(|s: Span| span_view(s)) + spans_after(ms, query_len as int, cur, k + 1, index + query_len, text_len as int)
            =~= before + spans_after(ms, query_len as int, cur, k as int, last as int, text_len as int));
        last = index + query_len;
        k = k + 1;
    }
    if last < text_len {
        out.push(Span { start: last, end: text_len, kind: SpanKind::Plain });
    }
    assert(out@.map_values(|s: Span| span_view(s)) =~= spans_after(ms, query_len as int, cur, 0, 0, text_len as int));
    out
}

} // verus!
