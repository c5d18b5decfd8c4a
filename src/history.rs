//! Linear undo/redo history over whole-canvas snapshots.

use vstd::prelude::*;

use crate::canvas::{CanvasModel, PixelCanvas};

verus! {

/// Two stacks of canvas snapshots, the most recent last. Depth is bounded by
/// memory alone: every commit keeps a full copy of the canvas.
pub struct History {
    undo_stack: Vec<PixelCanvas>,
    redo_stack: Vec<PixelCanvas>,
}

/// The abstract value of a history: the canvases that undo and redo would
/// bring back, each stack with its top last.
pub struct HistoryModel {
    pub undo: Seq<CanvasModel>,
    pub redo: Seq<CanvasModel>,
}

pub open spec fn models(s: Seq<PixelCanvas>) -> Seq<CanvasModel> {
    s.map_values(|c: PixelCanvas| c@)
}

impl View for History {
    type V = HistoryModel;

    closed spec fn view(&self) -> HistoryModel {
        HistoryModel { undo: models(self.undo_stack@), redo: models(self.redo_stack@) }
    }
}

impl History {
    /// A history with nothing to undo or redo.
    pub fn new() -> (r: History)
        ensures
            r@.undo == Seq::<CanvasModel>::empty(),
            r@.redo == Seq::<CanvasModel>::empty(),
    {
        let r = History { undo_stack: Vec::new(), redo_stack: Vec::new() };
        assert(r@.undo =~= Seq::<CanvasModel>::empty());
        assert(r@.redo =~= Seq::<CanvasModel>::empty());
        r
    }

    /// Records the canvas as it was before an edit: it goes on top of the
    /// undo stack, and the redo stack is emptied.
    pub fn record(&mut self, pre_state: PixelCanvas)
        ensures
            final(self)@.undo == old(self)@.undo.push(pre_state@),
            final(self)@.redo == Seq::<CanvasModel>::empty(),
    {
        self.undo_stack.push(pre_state);
        self.redo_stack.clear();
        assert(self@.undo =~= old(self)@.undo.push(pre_state@));
        assert(self@.redo =~= Seq::<CanvasModel>::empty());
    }

    /// Steps back once. With nothing to undo, nothing changes and the result
    /// is `false`. Otherwise the top of the undo stack becomes `current`, and
    /// the canvas that `current` held goes on top of the redo stack.
    pub fn undo(&mut self, current: &mut PixelCanvas) -> (changed: bool)
        ensures
            changed == (old(self)@.undo.len() > 0),
            !changed ==> final(self)@ == old(self)@ && *final(current) == *old(current),
            changed ==> {
                &&& final(current)@ == old(self)@.undo.last()
                &&& final(self)@.undo == old(self)@.undo.drop_last()
                &&& final(self)@.redo == old(self)@.redo.push(old(current)@)
            },
    {
        match self.undo_stack.pop() {
            None => false,
            Some(prev) => {
                let mut prev = prev;
                core::mem::swap(current, &mut prev);
                self.redo_stack.push(prev);
                assert(self@.undo =~= old(self)@.undo.drop_last());
                assert(self@.redo =~= old(self)@.redo.push(old(current)@));
                true
            },
        }
    }

    /// Steps forward once again, the mirror of `undo`: the top of the redo
    /// stack becomes `current`, and the canvas that `current` held goes on top
    /// of the undo stack.
    pub fn redo(&mut self, current: &mut PixelCanvas) -> (changed: bool)
        ensures
            changed == (old(self)@.redo.len() > 0),
            !changed ==> final(self)@ == old(self)@ && *final(current) == *old(current),
            changed ==> {
                &&& final(current)@ == old(self)@.redo.last()
                &&& final(self)@.redo == old(self)@.redo.drop_last()
                &&& final(self)@.undo == old(self)@.undo.push(old(current)@)
            },
    {
        match self.redo_stack.pop() {
            None => false,
            Some(next) => {
                let mut next = next;
                core::mem::swap(current, &mut next);
                self.undo_stack.push(next);
                assert(self@.redo =~= old(self)@.redo.drop_last());
                assert(self@.undo =~= old(self)@.undo.push(old(current)@));
                true
            },
        }
    }
}

} // verus!
