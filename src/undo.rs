use std::collections::VecDeque;
use vstd::prelude::*;

verus! {

/// The abstract state of an [`UndoHistory`]: both stacks, oldest entry first,
/// and the number of entries that each stack may hold.
pub struct HistoryModel {
    pub undos: Seq<String>,
    pub redos: Seq<String>,
    pub capacity: nat,
}

/// `s` with `x` appended, after dropping the oldest entry when `s` is full.
pub open spec fn bounded_push(s: Seq<String>, x: String, capacity: nat) -> Seq<String> {
    if s.len() >= capacity {
        s.subrange(1, s.len() as int).push(x)
    } else {
        s.push(x)
    }
}

impl HistoryModel {
    pub open spec fn wf(self) -> bool {
        &&& self.capacity > 0
        &&& self.undos.len() <= self.capacity
        &&& self.redos.len() <= self.capacity
    }

    /// Recording a new snapshot: the redo stack is abandoned.
    pub open spec fn pushed(self, text: String) -> HistoryModel {
        HistoryModel {
            undos: bounded_push(self.undos, text, self.capacity),
            redos: Seq::empty(),
            capacity: self.capacity,
        }
    }

    /// Undoing with `current` as the live text: the newest undo entry comes
    /// back and `current` goes onto the redo stack. Nothing changes when
    /// there is nothing to undo.
    pub open spec fn undone(self, current: String) -> (HistoryModel, Option<String>) {
        if self.undos.len() == 0 {
            (self, None)
        } else {
            (
                HistoryModel {
                    undos: self.undos.drop_last(),
                    redos: bounded_push(self.redos, current, self.capacity),
                    capacity: self.capacity,
                },
                Some(self.undos.last()),
            )
        }
    }

    /// The mirror image of `undone`.
    pub open spec fn redone(self, current: String) -> (HistoryModel, Option<String>) {
        if self.redos.len() == 0 {
            (self, None)
        } else {
            (
                HistoryModel {
                    undos: bounded_push(self.undos, current, self.capacity),
                    redos: self.redos.drop_last(),
                    capacity: self.capacity,
                },
                Some(self.redos.last()),
            )
        }
    }

    pub open spec fn cleared(self) -> HistoryModel {
        HistoryModel { undos: Seq::empty(), redos: Seq::empty(), capacity: self.capacity }
    }
}

impl HistoryModel {
    /// The state after pushing each of `texts` in turn, first one first.
    pub open spec fn pushed_all(self, texts: Seq<String>) -> HistoryModel
        decreases texts.len(),
    {
        if texts.len() == 0 {
            self
        } else {
            self.pushed_all(texts.drop_last()).pushed(texts.last())
        }
    }
}

/// The undo entries left after pushing `texts` onto a history holding
/// `undos` are the newest `capacity` of all of them, in order.
pub proof fn lemma_pushes_keep_newest(h: HistoryModel, texts: Seq<String>)
    requires
        h.wf(),
    ensures
        ({
            let all = h.undos + texts;
            let kept = if all.len() > h.capacity { h.capacity as int } else { all.len() as int };
            &&& h.pushed_all(texts).wf()
            &&& h.pushed_all(texts).capacity == h.capacity
            &&& h.pushed_all(texts).undos == all.subrange(all.len() - kept, all.len() as int)
        }),
    decreases texts.len(),
{
    if texts.len() > 0 {
        let init = texts.drop_last();
        lemma_pushes_keep_newest(h, init);
        let prev = h.pushed_all(init);
        let all0 = h.undos + init;
        let all = h.undos + texts;
        assert(all == all0.push(texts.last()));
        assert(h.pushed_all(texts).undos =~= all.subrange(
            all.len() - (if all.len() > h.capacity { h.capacity as int } else { all.len() as int }),
            all.len() as int,
        ));
    } else {
        assert(h.undos + texts =~= h.undos);
    }
}

/// Once at least `capacity` snapshots have been pushed, the undo stack is
/// full and holds exactly the `capacity` most recently pushed ones.
pub proof fn lemma_capacity_keeps_latest(h: HistoryModel, texts: Seq<String>)
    requires
        h.wf(),
        texts.len() >= h.capacity,
    ensures
        h.pushed_all(texts).undos.len() == h.capacity,
        h.pushed_all(texts).undos == texts.subrange(texts.len() - h.capacity, texts.len() as int),
{
    lemma_pushes_keep_newest(h, texts);
    let all = h.undos + texts;
    assert(all.subrange(all.len() - h.capacity, all.len() as int) =~= texts.subrange(
        texts.len() - h.capacity,
        texts.len() as int,
    ));
}

/// Pushing a snapshot empties the redo stack, whatever it held, and keeps
/// both stacks within their capacity.
pub proof fn lemma_push_clears_redo(h: HistoryModel, text: String)
    requires
        h.wf(),
    ensures
        h.pushed(text).redos.len() == 0,
        h.pushed(text).undos.last() == text,
        h.pushed(text).wf(),
{
}

/// Undoing with `current` and then redoing with the text that came back
/// hands `current` back and leaves the undo stack as it was; the redo stack
/// too is as it was unless it was full before.
pub proof fn lemma_undo_then_redo(h: HistoryModel, current: String)
    requires
        h.wf(),
        h.undos.len() > 0,
    ensures
        ({
            let (h1, r1) = h.undone(current);
            let (h2, r2) = h1.redone(r1.unwrap());
            &&& r1 == Some(h.undos.last())
            &&& r2 == Some(current)
            &&& h2.undos == h.undos
            &&& h2.capacity == h.capacity
            &&& h.redos.len() < h.capacity ==> h2.redos == h.redos
        }),
{
    let (h1, r1) = h.undone(current);
    let (h2, r2) = h1.redone(r1.unwrap());
    assert(h2.undos =~= h.undos);
    if h.redos.len() < h.capacity {
        assert(h2.redos =~= h.redos);
    }
}

/// Bounded undo/redo history of whole-text snapshots.
pub struct UndoHistory {
    undo_stack: VecDeque<String>,
    redo_stack: VecDeque<String>,
    max_capacity: usize,
}

impl View for UndoHistory {
    type V = HistoryModel;

    closed spec fn view(&self) -> HistoryModel {
        HistoryModel {
            undos: self.undo_stack@,
            redos: self.redo_stack@,
            capacity: self.max_capacity as nat,
        }
    }
}

/// Appends `text` to `stack`, first dropping the oldest entry when the stack
/// already holds `capacity` entries.
fn push_bounded(stack: &mut VecDeque<String>, text: String, capacity: usize)
    requires
        capacity > 0,
        old(stack)@.len() <= capacity,
    ensures
        final(stack)@ == bounded_push(old(stack)@, text, capacity as nat),
{
    if stack.len() >= capacity {
        stack.pop_front();
    }
    stack.push_back(text);
}

impl UndoHistory {
    pub open spec fn wf(&self) -> bool {
        self@.wf()
    }

    /// An empty history whose stacks hold at most `max_capacity` entries each.
    pub fn new(max_capacity: usize) -> (r: Self)
        requires
            max_capacity > 0,
        ensures
            r.wf(),
            r@.undos == Seq::<String>::empty(),
            r@.redos == Seq::<String>::empty(),
            r@.capacity == max_capacity,
    {
        UndoHistory {
            undo_stack: VecDeque::with_capacity(max_capacity),
            redo_stack: VecDeque::with_capacity(max_capacity),
            max_capacity,
        }
    }

    /// Records `text` as the newest undo entry and empties the redo stack.
    pub fn push(&mut self, text: String)
        requires
            old(self).wf(),
        ensures
            final(self).wf(),
            final(self)@ == old(self)@.pushed(text),
    {
        self.redo_stack.clear();
        push_bounded(&mut self.undo_stack, text, self.max_capacity);
    }

    /// Takes back the newest undo entry, keeping `current` for a later redo.
    pub fn undo(&mut self, current: String) -> (r: Option<String>)
        requires
            old(self).wf(),
        ensures
            final(self).wf(),
            (final(self)@, r) == old(self)@.undone(current),
    {
        match self.undo_stack.pop_back() {
            Some(previous) => {
                push_bounded(&mut self.redo_stack, current, self.max_capacity);
                Some(previous)
            },
            None => None,
        }
    }

    /// Takes back the newest redo entry, keeping `current` for a later undo.
    pub fn redo(&mut self, current: String) -> (r: Option<String>)
        requires
            old(self).wf(),
        ensures
            final(self).wf(),
            (final(self)@, r) == old(self)@.redone(current),
    {
        match self.redo_stack.pop_back() {
            Some(next) => {
                push_bounded(&mut self.undo_stack, current, self.max_capacity);
                Some(next)
            },
            None => None,
        }
    }

    pub fn can_undo(&self) -> (r: bool)
        ensures
            r == (self@.undos.len() > 0),
    {
        self.undo_stack.len() > 0
    }

    pub fn can_redo(&self) -> (r: bool)
        ensures
            r == (self@.redos.len() > 0),
    {
        self.redo_stack.len() > 0
    }

    /// The newest undo entry, if any, left in place.
    pub fn peek_undo(&self) -> (r: Option<&String>)
        ensures
            match r {
                Some(s) => self@.undos.len() > 0 && *s == self@.undos.last(),
                None => self@.undos.len() == 0,
            },
    {
        let n = self.undo_stack.len();
        if n == 0 {
            None
        } else {
            Some(&self.undo_stack[n - 1])
        }
    }

    /// Empties both stacks.
    pub fn clear(&mut self)
        requires
            old(self).wf(),
        ensures
            final(self).wf(),
            final(self)@ == old(self)@.cleared(),
    {
        self.undo_stack.clear();
        self.redo_stack.clear();
    }
}

/// The capacity that an editor history gets when none is chosen.
pub const DEFAULT_CAPACITY: usize = 100;

impl Default for UndoHistory {
    fn default() -> (r: Self)
        ensures
            r.wf(),
            r@.undos == Seq::<String>::empty(),
            r@.redos == Seq::<String>::empty(),
            r@.capacity == DEFAULT_CAPACITY,
    {
        UndoHistory::new(DEFAULT_CAPACITY)
    }
}

} // verus!
