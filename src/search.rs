use crate::highlight::spaced;
use vstd::prelude::*;
use vstd::string::StringSliceAdditionalSpecFns;
use vstd::utf8::encode_utf8;

verus! {

/// Start offsets of the non-overlapping occurrences of `q` in `t` that begin
/// at or after `i`, taken greedily from the left. An empty `q` has none.
pub open spec fn occurrences_from(t: Seq<u8>, q: Seq<u8>, i: int) -> Seq<int>
    decreases t.len() - i,
{
    if q.len() == 0 || i < 0 || i + q.len() > t.len() {
        Seq::empty()
    } else if t.subrange(i, i + q.len()) == q {
        seq![i] + occurrences_from(t, q, i + q.len())
    } else {
        occurrences_from(t, q, i + 1)
    }
}

/// Byte offsets of the occurrences of `query` in `text`, as a left-to-right
/// scan finds them.
pub open spec fn occurrences(text: Seq<char>, query: Seq<char>) -> Seq<int> {
    occurrences_from(encode_utf8(text), encode_utf8(query), 0)
}

/// Every offset that the scan from `i` finds is a real occurrence of `q`
/// inside `t`, at or after `i`; the offsets ascend and the occurrences do
/// not overlap.
pub proof fn lemma_occurrences_from_sound(t: Seq<u8>, q: Seq<u8>, i: int)
    requires
        0 <= i,
    ensures
        ({
            let o = occurrences_from(t, q, i);
            &&& forall|k: int|
                0 <= k < o.len() ==> i <= #[trigger] o[k] && o[k] + q.len() <= t.len()
                    && t.subrange(o[k], o[k] + q.len()) == q
            &&& forall|k: int| 0 <= k < o.len() - 1 ==> #[trigger] o[k] + q.len() <= o[k + 1]
        }),
    decreases t.len() - i,
{
    if q.len() == 0 || i + q.len() > t.len() {
        assert(occurrences_from(t, q, i).len() == 0);
    } else if t.subrange(i, i + q.len()) == q {
        lemma_occurrences_from_sound(t, q, i + q.len());
        let rest = occurrences_from(t, q, i + q.len());
        let o = occurrences_from(t, q, i);
        assert(o == seq![i] + rest);
        assert forall|k: int| 0 <= k < o.len() implies i <= #[trigger] o[k] && o[k] + q.len()
            <= t.len() && t.subrange(o[k], o[k] + q.len()) == q by {
            if k > 0 {
                assert(o[k] == rest[k - 1]);
            }
        }
        assert forall|k: int| 0 <= k < o.len() - 1 implies #[trigger] o[k] + q.len() <= o[k + 1] by {
            if k > 0 {
                assert(o[k] == rest[k - 1]);
                assert(o[k + 1] == rest[k]);
            } else {
                assert(o[1] == rest[0]);
            }
        }
    } else {
        lemma_occurrences_from_sound(t, q, i + 1);
        assert(occurrences_from(t, q, i) == occurrences_from(t, q, i + 1));
    }
}

/// The matches of a search are real occurrences of the query in the text,
/// in ascending order, each as long as the query and none overlapping the
/// next; so they are fit to be highlighted.
pub proof fn lemma_occurrences_sound(text: Seq<char>, query: Seq<char>)
    ensures
        ({
            let (t, q, o) = (encode_utf8(text), encode_utf8(query), occurrences(text, query));
            &&& forall|k: int|
                0 <= k < o.len() ==> 0 <= #[trigger] o[k] && o[k] + q.len() <= t.len()
                    && t.subrange(o[k], o[k] + q.len()) == q
            &&& forall|k: int| 0 <= k < o.len() - 1 ==> #[trigger] o[k] + q.len() <= o[k + 1]
            &&& spaced(o, q.len() as int, t.len() as int)
        }),
{
    lemma_occurrences_from_sound(encode_utf8(text), encode_utf8(query), 0);
}

/// An empty query matches nowhere, whatever the text.
pub proof fn lemma_empty_query(text: Seq<char>)
    ensures
        occurrences(text, Seq::empty()).len() == 0,
{
}

/// The abstract state of a [`SearchState`].
pub struct SearchModel {
    pub show_bar: bool,
    pub query: Seq<char>,
    pub results: Seq<int>,
    pub current: Option<int>,
}

impl SearchModel {
    /// A cursor exists exactly when there are matches, and points at one.
    pub open spec fn wf(self) -> bool {
        match self.current {
            Some(c) => 0 <= c < self.results.len(),
            None => self.results.len() == 0,
        }
    }

    /// The cursor after moving to the next match, wrapping to the first.
    pub open spec fn next(self) -> Option<int> {
        if self.results.len() == 0 {
            self.current
        } else {
            Some((self.current.unwrap() + 1) % (self.results.len() as int))
        }
    }

    /// The cursor after moving to the previous match, wrapping to the last.
    pub open spec fn previous(self) -> Option<int> {
        if self.results.len() == 0 {
            self.current
        } else if self.current.unwrap() == 0 {
            Some(self.results.len() - 1)
        } else {
            Some(self.current.unwrap() - 1)
        }
    }
}

impl SearchModel {
    /// The cursor after moving to the next match `n` times.
    pub open spec fn advanced(self, n: nat) -> Option<int>
        decreases n,
    {
        if n == 0 {
            self.current
        } else {
            SearchModel { current: self.advanced((n - 1) as nat), ..self }.next()
        }
    }
}

proof fn lemma_advanced(m: SearchModel, n: nat)
    requires
        m.wf(),
        m.results.len() > 0,
    ensures
        m.advanced(n) == Some((m.current.unwrap() + n) % (m.results.len() as int)),
    decreases n,
{
    let len = m.results.len() as int;
    let c = m.current.unwrap();
    if n > 0 {
        lemma_advanced(m, (n - 1) as nat);
        vstd::arithmetic::div_mod::lemma_add_mod_noop_right(1, c + n - 1, len);
    } else {
        vstd::arithmetic::div_mod::lemma_small_mod(c as nat, len as nat);
    }
}

/// Moving to the next match `n` times moves the cursor `n` places round the
/// matches; as many moves as there are matches bring it back where it was.
pub proof fn lemma_next_cycles(m: SearchModel, n: nat)
    requires
        m.wf(),
        m.results.len() > 0,
    ensures
        m.advanced(n) == Some((m.current.unwrap() + n) % (m.results.len() as int)),
        m.advanced(m.results.len()) == m.current,
{
    let len = m.results.len() as int;
    let c = m.current.unwrap();
    lemma_advanced(m, n);
    lemma_advanced(m, m.results.len());
    vstd::arithmetic::div_mod::lemma_mod_add_multiples_vanish(c, len);
    vstd::arithmetic::div_mod::lemma_small_mod(c as nat, len as nat);
}

/// Find-bar state: the query, the offsets of its matches and the selected one.
pub struct SearchState {
    show_bar: bool,
    query: String,
    results: Vec<usize>,
    current_match_index: Option<usize>,
}

pub open spec fn as_ints(s: Seq<usize>) -> Seq<int> {
    s.map_values(|x: usize| x as int)
}

pub open spec fn opt_int(o: Option<usize>) -> Option<int> {
    match o {
        Some(x) => Some(x as int),
        None => None,
    }
}

impl View for SearchState {
    type V = SearchModel;

    closed spec fn view(&self) -> SearchModel {
        SearchModel {
            show_bar: self.show_bar,
            query: self.query@,
            results: as_ints(self.results@),
            current: opt_int(self.current_match_index),
        }
    }
}

/// Whether `q` occurs in `t` at offset `i`.
fn occurs_at(t: &[u8], q: &[u8], i: usize) -> (r: bool)
    requires
        i + q@.len() <= t@.len(),
    ensures
        r == (t@.subrange(i as int, i + q@.len()) == q@),
{
    let m = q.len();
    let n = t.len();
    let mut j: usize = 0;
    while j < m
        invariant
            m == q@.len(),
            n == t@.len(),
            i + m <= t@.len(),
            j <= m,
            forall|k: int| 0 <= k < j ==> t@[i + k] == q@[k],
        decreases m - j,
    {
        if t[i + j] != q[j] {
            assert(t@.subrange(i as int, i + m)[j as int] != q@[j as int]);
            return false;
        }
        j = j + 1;
    }
    assert(t@.subrange(i as int, i + m) =~= q@);
    true
}

/// The offsets of the non-overlapping occurrences of `q` in `t`, by a naive
/// scan from the left.
fn find_all(t: &[u8], q: &[u8]) -> (r: Vec<usize>)
    ensures
        as_ints(r@) == occurrences_from(t@, q@, 0),
{
    let mut out: Vec<usize> = Vec::new();
    let n = t.len();
    let m = q.len();
    if m == 0 {
        assert(as_ints(out@) =~= Seq::<int>::empty());
        return out;
    }
    let mut i: usize = 0;
    assert(as_ints(out@) + occurrences_from(t@, q@, 0) =~= occurrences_from(t@, q@, 0));
    while i <= n && m <= n - i
        invariant
            n == t@.len(),
            m == q@.len(),
            m > 0,
            i <= n,
            as_ints(out@) + occurrences_from(t@, q@, i as int) == occurrences_from(t@, q@, 0),
        decreases n - i,
    {
        let ghost before = as_ints(out@);
        if occurs_at(t, q, i) {
            out.push(i);
            assert(as_ints(out@) =~= before.push(i as int));
            assert(before + occurrences_from(t@, q@, i as int) =~= as_ints(out@)
                + occurrences_from(t@, q@, i + m));
            i = i + m;
        } else {
            i = i + 1;
        }
    }
    assert(as_ints(out@) + occurrences_from(t@, q@, i as int) =~= as_ints(out@));
    out
}

/// The number of line breaks in `b`.
pub open spec fn count_newlines(b: Seq<u8>) -> nat
    decreases b.len(),
{
    if b.len() == 0 {
        0
    } else {
        count_newlines(b.drop_last()) + if b.last() == 10 {
            1nat
        } else {
            0nat
        }
    }
}

/// Where the line holding byte `pos` of `b` begins: just past the last line
/// break before `pos`, or 0.
pub open spec fn line_start(b: Seq<u8>, pos: int) -> int
    decreases pos,
{
    if pos <= 0 {
        0
    } else if b[pos - 1] == 10 {
        pos
    } else {
        line_start(b, pos - 1)
    }
}

/// Where the line holding byte `pos` of `b` ends: at the first line break
/// from `pos` on, or at the end of `b`.
pub open spec fn line_end(b: Seq<u8>, pos: int) -> int
    decreases b.len() - pos,
{
    if pos >= b.len() {
        b.len() as int
    } else if b[pos] == 10 {
        pos
    } else {
        line_end(b, pos + 1)
    }
}

/// The line of the text on which a match stands: its number, counting from
/// 1, and the byte range it covers, line break excluded.
#[derive(PartialEq, Eq, Structural, Clone, Copy, Debug)]
pub struct MatchLine {
    pub number: usize,
    pub start: usize,
    pub end: usize,
}

/// The line of `text` that holds byte `pos`.
pub fn match_line(text: &str, pos: usize) -> (r: MatchLine)
    requires
        pos < text.spec_bytes().len(),
    ensures
        r.number == count_newlines(text.spec_bytes().subrange(0, pos as int)) + 1,
        r.start == line_start(text.spec_bytes(), pos as int),
        r.end == line_end(text.spec_bytes(), pos as int),
{
    let b = text.as_bytes();
    let n = b.len();
    let mut count: usize = 0;
    let mut start: usize = 0;
    let mut i: usize = 0;
    assert(b@.subrange(0, 0) =~= Seq::<u8>::empty());
    while i < pos
        invariant
            n == b@.len(),
            pos < n,
            i <= pos,
            count <= i,
            count == count_newlines(b@.subrange(0, i as int)),
            start == line_start(b@, i as int),
        decreases pos - i,
    {
        assert(b@.subrange(0, i + 1).drop_last() =~= b@.subrange(0, i as int));
        if b[i] == 10 {
            count = count + 1;
            start = i + 1;
        }
        i = i + 1;
    }
    let mut end: usize = pos;
    while end < n && b[end] != 10
        invariant
            n == b@.len(),
            pos <= end <= n,
            line_end(b@, end as int) == line_end(b@, pos as int),
        decreases n - end,
    {
        end = end + 1;
    }
    MatchLine { number: count + 1, start, end }
}

impl SearchState {
    pub open spec fn wf(&self) -> bool {
        self@.wf()
    }

    /// A hidden bar with an empty query and no matches.
    pub fn new() -> (r: Self)
        ensures
            r.wf(),
            !r@.show_bar,
            r@.query.len() == 0,
            r@.results.len() == 0,
            r@.current == None::<int>,
    {
        let r = SearchState {
            show_bar: false,
            query: String::new(),
            results: Vec::new(),
            current_match_index: None,
        };
        assert(r@.results =~= Seq::<int>::empty());
        r
    }

    /// Whether the find bar is shown.
    pub fn show_bar(&self) -> (r: bool)
        ensures
            r == self@.show_bar,
    {
        self.show_bar
    }

    /// Shows the find bar if hidden and hides it if shown.
    pub fn toggle_bar(&mut self)
        ensures
            final(self)@ == (SearchModel { show_bar: !old(self)@.show_bar, ..old(self)@ }),
    {
        self.show_bar = !self.show_bar;
    }

    pub fn query(&self) -> (r: &String)
        ensures
            r@ == self@.query,
    {
        &self.query
    }

    /// Byte offsets of the matches, ascending.
    pub fn results(&self) -> (r: &Vec<usize>)
        ensures
            as_ints(r@) == self@.results,
    {
        &self.results
    }

    pub fn current_match_index(&self) -> (r: Option<usize>)
        ensures
            opt_int(r) == self@.current,
    {
        self.current_match_index
    }

    /// Recomputes the matches of the query in `text` and selects the first.
    pub fn update_results(&mut self, text: &str)
        requires
            old(self).wf(),
        ensures
            final(self).wf(),
            final(self)@.show_bar == old(self)@.show_bar,
            final(self)@.query == old(self)@.query,
            final(self)@.results == occurrences(text@, old(self)@.query),
            final(self)@.current == (if final(self)@.results.len() > 0 {
                Some(0int)
            } else {
                None
            }),
            old(self)@.query.len() == 0 ==> final(self)@.results.len() == 0,
    {
        self.results.clear();
        self.current_match_index = None;
        if self.query.as_str().is_empty() {
            assert(self@.results =~= Seq::<int>::empty());
            return;
        }
        self.results = find_all(text.as_bytes(), self.query.as_str().as_bytes());
        if self.results.len() > 0 {
            self.current_match_index = Some(0);
        }
    }

    /// Replaces the query and recomputes the matches in `text`.
    pub fn set_query(&mut self, query: String, text: &str)
        requires
            old(self).wf(),
        ensures
            final(self).wf(),
            final(self)@.show_bar == old(self)@.show_bar,
            final(self)@.query == query@,
            final(self)@.results == occurrences(text@, query@),
            final(self)@.current == (if final(self)@.results.len() > 0 {
                Some(0int)
            } else {
                None
            }),
    {
        self.query = query;
        self.results.clear();
        self.current_match_index = None;
        assert(self@.results =~= Seq::<int>::empty());
        self.update_results(text);
    }

    /// Selects the next match, wrapping from the last to the first.
    pub fn find_next(&mut self)
        requires
            old(self).wf(),
        ensures
            final(self).wf(),
            final(self)@.show_bar == old(self)@.show_bar,
            final(self)@.query == old(self)@.query,
            final(self)@.results == old(self)@.results,
            final(self)@.current == old(self)@.next(),
    {
        if self.results.len() == 0 {
            return;
        }
        match self.current_match_index {
            Some(current) => {
                self.current_match_index = Some((current + 1) % self.results.len());
            },
            None => {
                self.current_match_index = Some(0);
            },
        }
    }

    /// Selects the previous match, wrapping from the first to the last.
    pub fn find_previous(&mut self)
        requires
            old(self).wf(),
        ensures
            final(self).wf(),
            final(self)@.show_bar == old(self)@.show_bar,
            final(self)@.query == old(self)@.query,
            final(self)@.results == old(self)@.results,
            final(self)@.current == old(self)@.previous(),
    {
        if self.results.len() == 0 {
            return;
        }
        match self.current_match_index {
            Some(current) => {
                if current == 0 {
                    self.current_match_index = Some(self.results.len() - 1);
                } else {
                    self.current_match_index = Some(current - 1);
                }
            },
            None => {
                self.current_match_index = Some(self.results.len() - 1);
            },
        }
    }

    /// Hides the bar and forgets the query and its matches.
    pub fn close(&mut self)
        ensures
            final(self).wf(),
            !final(self)@.show_bar,
            final(self)@.query.len() == 0,
            final(self)@.results.len() == 0,
            final(self)@.current == None::<int>,
    {
        self.show_bar = false;
        self.query = String::new();
        self.results.clear();
        self.current_match_index = None;
        assert(self@.results =~= Seq::<int>::empty());
    }
}

impl Default for SearchState {
    fn default() -> (r: Self)
        ensures
            r.wf(),
            !r@.show_bar,
            r@.query.len() == 0,
            r@.results.len() == 0,
            r@.current == None::<int>,
    {
        SearchState::new()
    }
}

} // verus!
