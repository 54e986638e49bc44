use crate::undo::UndoHistory;
use vstd::prelude::*;

verus! {

/// How long the text must stay unchanged, in milliseconds, before a burst of
/// edits is committed to the history.
pub const DEBOUNCE_MS: u64 = 500;

/// Milliseconds from `since` to `now`; zero when the clock reading went back.
pub open spec fn elapsed(now: u64, since: u64) -> int {
    if now >= since {
        now - since
    } else {
        0
    }
}

/// Folds rapid edits into one history entry: the text as it was before the
/// burst, committed once the text has been left alone long enough.
#[derive(Debug)]
pub enum ChangeCoalescer {
    /// No edit is waiting to be committed.
    Idle,
    /// `text` is the text before the current burst; `since_ms` is when the
    /// burst last changed the text.
    Pending { text: String, since_ms: u64 },
}

impl ChangeCoalescer {
    /// Whether the pending burst has been quiet for longer than the window.
    pub open spec fn expired(self, now: u64) -> bool {
        match self {
            ChangeCoalescer::Idle => false,
            ChangeCoalescer::Pending { since_ms, .. } => elapsed(now, since_ms) > DEBOUNCE_MS,
        }
    }

    /// The snapshot that a tick at `now` commits, if any.
    pub open spec fn committed(self, now: u64) -> Option<String> {
        match self {
            ChangeCoalescer::Pending { text, .. } => if self.expired(now) {
                Some(text)
            } else {
                None
            },
            ChangeCoalescer::Idle => None,
        }
    }

    /// The state after a tick at `now` that saw the text go from `previous`
    /// to something else (`changed`) or stay as it was.
    pub open spec fn after_tick(self, previous: String, changed: bool, now: u64) -> ChangeCoalescer {
        if changed {
            match self {
                ChangeCoalescer::Pending { text, .. } => if self.expired(now) {
                    ChangeCoalescer::Pending { text: previous, since_ms: now }
                } else {
                    ChangeCoalescer::Pending { text, since_ms: now }
                },
                ChangeCoalescer::Idle => ChangeCoalescer::Pending { text: previous, since_ms: now },
            }
        } else if self.expired(now) {
            ChangeCoalescer::Idle
        } else {
            self
        }
    }

    pub fn new() -> (r: Self)
        ensures
            r == ChangeCoalescer::Idle,
    {
        ChangeCoalescer::Idle
    }

    pub fn is_pending(&self) -> (r: bool)
        ensures
            r == (self is Pending),
    {
        match self {
            ChangeCoalescer::Idle => false,
            ChangeCoalescer::Pending { .. } => true,
        }
    }

    /// Commits the pending text, if any, to `history` and goes idle.
    pub fn flush(&mut self, history: &mut UndoHistory)
        requires
            old(history).wf(),
        ensures
            final(history).wf(),
            *final(self) == ChangeCoalescer::Idle,
            match *old(self) {
                ChangeCoalescer::Pending { text, .. } => final(history)@ == old(history)@.pushed(
                    text,
                ),
                ChangeCoalescer::Idle => final(history)@ == old(history)@,
            },
    {
        let mut state = ChangeCoalescer::Idle;
        std::mem::swap(self, &mut state);
        match state {
            ChangeCoalescer::Pending { text, .. } => history.push(text),
            ChangeCoalescer::Idle => {},
        }
    }

    /// Drops the pending text without committing it, as an undo or a redo
    /// must.
    pub fn discard(&mut self)
        ensures
            *final(self) == ChangeCoalescer::Idle,
    {
        *self = ChangeCoalescer::Idle;
    }

    /// One tick of the editor: the text was `previous_text` before the frame
    /// and is `new_text` after it, and the clock reads `now_ms`. A burst
    /// that has been quiet for longer than [`DEBOUNCE_MS`] is pushed onto
    /// `history`.
    pub fn observe(
        &mut self,
        history: &mut UndoHistory,
        previous_text: &String,
        new_text: &String,
        now_ms: u64,
    )
        requires
            old(history).wf(),
        ensures
            final(history).wf(),
            *final(self) == old(self).after_tick(
                *previous_text,
                new_text@ != previous_text@,
                now_ms,
            ),
            match old(self).committed(now_ms) {
                Some(t) => final(history)@ == old(history)@.pushed(t),
                None => final(history)@ == old(history)@,
            },
    {
        let changed = !new_text.eq(previous_text);
        let expired = match self {
            ChangeCoalescer::Idle => false,
            ChangeCoalescer::Pending { since_ms, .. } => {
                now_ms >= *since_ms && now_ms - *since_ms > DEBOUNCE_MS
            },
        };
        if expired {
            self.flush(history);
        }
        if changed {
            let mut state = ChangeCoalescer::Idle;
            std::mem::swap(self, &mut state);
            *self = match state {
                ChangeCoalescer::Pending { text, .. } => ChangeCoalescer::Pending {
                    text,
                    since_ms: now_ms,
                },
                ChangeCoalescer::Idle => ChangeCoalescer::Pending {
                    text: previous_text.clone(),
                    since_ms: now_ms,
                },
            };
        }
    }
}

impl ChangeCoalescer {
    /// The state after a burst of changes, one per tick: `(text before the
    /// tick, clock)`, oldest first.
    pub open spec fn after_burst(self, burst: Seq<(String, u64)>) -> ChangeCoalescer
        decreases burst.len(),
    {
        if burst.len() == 0 {
            self
        } else {
            self.after_burst(burst.drop_last()).after_tick(burst.last().0, true, burst.last().1)
        }
    }

    /// The snapshots committed during such a burst, in order.
    pub open spec fn committed_in_burst(self, burst: Seq<(String, u64)>) -> Seq<String>
        decreases burst.len(),
    {
        if burst.len() == 0 {
            Seq::empty()
        } else {
            let before = self.after_burst(burst.drop_last());
            self.committed_in_burst(burst.drop_last()) + match before.committed(burst.last().1) {
                Some(t) => seq![t],
                None => Seq::empty(),
            }
        }
    }
}

/// Changes that each come within the window of the one before commit
/// nothing: the coalescer holds the text from before the first of them.
/// The first quiet tick past the window then commits exactly that text and
/// goes idle.
pub proof fn lemma_burst_is_one_entry(burst: Seq<(String, u64)>, quiet_ms: u64)
    requires
        burst.len() > 0,
        forall|j: int| 0 < j < burst.len() ==> elapsed(#[trigger] burst[j].1, burst[j - 1].1) <= DEBOUNCE_MS,
    ensures
        ChangeCoalescer::Idle.committed_in_burst(burst).len() == 0,
        ChangeCoalescer::Idle.after_burst(burst) == (ChangeCoalescer::Pending {
            text: burst[0].0,
            since_ms: burst.last().1,
        }),
        elapsed(quiet_ms, burst.last().1) > DEBOUNCE_MS ==> {
            let held = ChangeCoalescer::Idle.after_burst(burst);
            &&& held.committed(quiet_ms) == Some(burst[0].0)
            &&& held.after_tick(burst.last().0, false, quiet_ms) == ChangeCoalescer::Idle
        },
    decreases burst.len(),
{
    if burst.len() > 1 {
        let init = burst.drop_last();
        assert forall|j: int| 0 < j < init.len() implies elapsed(#[trigger] init[j].1, init[j - 1].1)
            <= DEBOUNCE_MS by {
            assert(init[j] == burst[j]);
            assert(init[j - 1] == burst[j - 1]);
        }
        lemma_burst_is_one_entry(init, quiet_ms);
        assert(burst[burst.len() - 1].1 == burst.last().1);
        assert(init.last() == burst[burst.len() - 2]);
        assert(ChangeCoalescer::Idle.committed_in_burst(burst) =~= Seq::<String>::empty());
    } else {
        let init = burst.drop_last();
        assert(init.len() == 0);
        assert(ChangeCoalescer::Idle.after_burst(init) == ChangeCoalescer::Idle);
        assert(ChangeCoalescer::Idle.committed_in_burst(init) == Seq::<String>::empty());
        assert(ChangeCoalescer::Idle.committed(burst.last().1) == None::<String>);
        assert(ChangeCoalescer::Idle.committed_in_burst(burst) =~= Seq::<String>::empty());
    }
}

impl Default for ChangeCoalescer {
    fn default() -> (r: Self)
        ensures
            r == ChangeCoalescer::Idle,
    {
        ChangeCoalescer::Idle
    }
}

} // verus!
