use std::collections::VecDeque;
use vstd::prelude::*;

verus! {

/// The number of edit actions that can be undone.
pub const HISTORY_LIMIT: usize = 100;

/// The abstract content of an [`EditHistory`]: the states that undo and redo give back
/// (most recent last) and the state saved when the current edit began.
pub ghost struct HistoryView<S> {
    pub undo: Seq<S>,
    pub redo: Seq<S>,
    pub pending: Option<S>,
}

/// The undo stack after `before` is recorded: the oldest entry leaves beyond the limit.
pub open spec fn recorded<S>(undo: Seq<S>, before: S) -> Seq<S> {
    let pushed = undo.push(before);
    if pushed.len() > HISTORY_LIMIT {
        pushed.drop_first()
    } else {
        pushed
    }
}

/// The history after an edit that began at `before` is committed.
pub open spec fn record_step<S>(v: HistoryView<S>, before: S) -> HistoryView<S> {
    HistoryView { undo: recorded(v.undo, before), redo: Seq::empty(), pending: v.pending }
}

/// Undo while the editor shows `current`: an unfinished edit is abandoned first; otherwise
/// the latest recorded state comes back and `current` becomes redoable.
pub open spec fn undo_step<S>(v: HistoryView<S>, current: S) -> (HistoryView<S>, Option<S>) {
    if v.pending is Some {
        (HistoryView { pending: None, ..v }, v.pending)
    } else if v.undo.len() > 0 {
        (
            HistoryView {
                undo: v.undo.drop_last(),
                redo: v.redo.push(current),
                pending: None,
            },
            Some(v.undo.last()),
        )
    } else {
        (v, None)
    }
}

/// Redo while the editor shows `current`: refused during an unfinished edit; otherwise the
/// latest undone state comes back and `current` becomes undoable.
pub open spec fn redo_step<S>(v: HistoryView<S>, current: S) -> (HistoryView<S>, Option<S>) {
    if v.pending is Some {
        (v, None)
    } else if v.redo.len() > 0 {
        (
            HistoryView {
                undo: v.undo.push(current),
                redo: v.redo.drop_last(),
                pending: None,
            },
            Some(v.redo.last()),
        )
    } else {
        (v, None)
    }
}

/// Undo/redo history of editor states. Stores editing data only.
pub struct EditHistory<S> {
    undo: VecDeque<S>,
    redo: Vec<S>,
    pending: Option<S>,
}

impl<S> EditHistory<S> {
    pub closed spec fn view(&self) -> HistoryView<S> {
        HistoryView { undo: self.undo@, redo: self.redo@, pending: self.pending }
    }

    /// At most `HISTORY_LIMIT` actions can be undone and redone together.
    pub open spec fn wf(&self) -> bool {
        self.view().undo.len() + self.view().redo.len() <= HISTORY_LIMIT
    }

    /// An empty history.
    pub fn new() -> (h: Self)
        ensures
            h.wf(),
            h.view().undo == Seq::<S>::empty(),
            h.view().redo == Seq::<S>::empty(),
            h.view().pending is None,
    {
        EditHistory { undo: VecDeque::new(), redo: Vec::new(), pending: None }
    }

    /// Marks the start of an edit at state `current`; an edit that has already begun keeps
    /// the state it started from.
    pub fn begin(&mut self, current: S)
        requires
            old(self).wf(),
        ensures
            final(self).wf(),
            final(self).view() == (if old(self).view().pending is Some {
                old(self).view()
            } else {
                HistoryView { pending: Some(current), ..old(self).view() }
            }),
    {
        if self.pending.is_none() {
            self.pending = Some(current);
        }
    }

    /// The state at which the current edit began, if an edit is under way.
    pub fn pending(&self) -> (p: Option<&S>)
        ensures
            p == match self.view().pending {
                Some(s) => Some(&s),
                None => None,
            },
    {
        self.pending.as_ref()
    }

    /// Ends the current edit. When `changed`, its starting state becomes undoable and the
    /// redo history is dropped; otherwise nothing is recorded.
    pub fn commit(&mut self, changed: bool)
        requires
            old(self).wf(),
        ensures
            final(self).wf(),
            final(self).view() == (match old(self).view().pending {
                Some(before) => if changed {
                    record_step(HistoryView { pending: None, ..old(self).view() }, before)
                } else {
                    HistoryView { pending: None, ..old(self).view() }
                },
                None => old(self).view(),
            }),
    {
        if let Some(before) = self.pending.take() {
            if changed {
                self.undo.push_back(before);
                if self.undo.len() > HISTORY_LIMIT {
                    let _ = self.undo.pop_front();
                }
                self.redo.clear();
                proof {
                    assert(self.undo@ =~= recorded(old(self).view().undo, before));
                }
            }
        }
    }

    /// Abandons the current edit and gives back the state at which it began.
    pub fn cancel(&mut self) -> (before: Option<S>)
        requires
            old(self).wf(),
        ensures
            final(self).wf(),
            before == old(self).view().pending,
            final(self).view() == (HistoryView { pending: None, ..old(self).view() }),
    {
        self.pending.take()
    }

    pub fn can_undo(&self) -> (b: bool)
        ensures
            b == ((self.view().pending is Some) || self.view().undo.len() > 0),
    {
        self.pending.is_some() || self.undo.len() > 0
    }

    pub fn can_redo(&self) -> (b: bool)
        ensures
            b == ((self.view().pending is None) && self.view().redo.len() > 0),
    {
        self.pending.is_none() && self.redo.len() > 0
    }

    /// Undo while the editor shows `current`; returns the state to restore.
    pub fn undo(&mut self, current: S) -> (restored: Option<S>)
        requires
            old(self).wf(),
        ensures
            final(self).wf(),
            (final(self).view(), restored) == undo_step(old(self).view(), current),
    {
        if self.pending.is_some() {
            return self.pending.take();
        }
        match self.undo.pop_back() {
            Some(before) => {
                self.redo.push(current);
                Some(before)
            },
            None => None,
        }
    }

    /// Redo while the editor shows `current`; returns the state to restore.
    pub fn redo(&mut self, current: S) -> (restored: Option<S>)
        requires
            old(self).wf(),
        ensures
            final(self).wf(),
            (final(self).view(), restored) == redo_step(old(self).view(), current),
    {
        if self.pending.is_some() {
            return None;
        }
        match self.redo.pop() {
            Some(after) => {
                self.undo.push_back(current);
                Some(after)
            },
            None => None,
        }
    }
}

impl<S> Default for EditHistory<S> {
    fn default() -> (h: Self)
        ensures
            h.wf(),
            h.view().undo == Seq::<S>::empty(),
            h.view().redo == Seq::<S>::empty(),
            h.view().pending is None,
    {
        Self::new()
    }
}

/// Undo followed by redo gives back both the editor state and the history.
pub proof fn lemma_undo_then_redo<S>(v: HistoryView<S>, current: S)
    requires
        v.pending is None,
        v.undo.len() > 0,
    ensures
        ({
            let (after_undo, restored) = undo_step(v, current);
            let (after_redo, back) = redo_step(after_undo, restored->Some_0);
            &&& after_redo == v
            &&& back == Some(current)
        }),
{
    let (after_undo, restored) = undo_step(v, current);
    assert(after_undo.undo.push(restored->Some_0) =~= v.undo);
    assert(after_undo.redo.drop_last() =~= v.redo);
}

/// Redo followed by undo gives back both the editor state and the history.
pub proof fn lemma_redo_then_undo<S>(v: HistoryView<S>, current: S)
    requires
        v.pending is None,
        v.redo.len() > 0,
    ensures
        ({
            let (after_redo, restored) = redo_step(v, current);
            let (after_undo, back) = undo_step(after_redo, restored->Some_0);
            &&& after_undo == v
            &&& back == Some(current)
        }),
{
    let (after_redo, restored) = redo_step(v, current);
    assert(after_redo.redo.push(restored->Some_0) =~= v.redo);
    assert(after_redo.undo.drop_last() =~= v.undo);
}

/// A committed change is what the next undo gives back, and nothing is left to redo.
pub proof fn lemma_commit_then_undo<S>(v: HistoryView<S>, before: S, current: S)
    ensures
        ({
            let committed = record_step(HistoryView { pending: None, ..v }, before);
            &&& committed.redo.len() == 0
            &&& undo_step(committed, current).1 == Some(before)
        }),
{
    let pushed = v.undo.push(before);
    if pushed.len() > HISTORY_LIMIT {
        assert(pushed.drop_first().last() == before);
    }
}

} // verus!
