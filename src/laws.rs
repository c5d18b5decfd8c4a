//! What holds of the engine across several operations.

use vstd::prelude::*;

use crate::engine::EngineModel;
use crate::stroke::{Mode, StrokeState};

verus! {

/// An undo right after a commit brings back the canvas as it was before the
/// commit, pixel for pixel; the commit is a fixed-radius press or the release
/// that ends a drag.
pub proof fn undo_reverts_commit(m: EngineModel, x: int, y: int)
    ensures
        m.stroke is Idle && m.mode == Mode::FixedRadius ==> m.begun(x, y).undone().canvas == m.canvas,
        m.stroke is Active ==> m.ended(x, y).undone().canvas == m.canvas,
{
}

/// A redo right after an undo that changed something brings back the state
/// from before that undo: the canvas pixel for pixel, and both stacks.
pub proof fn redo_reverts_undo(m: EngineModel)
    requires
        m.history.undo.len() > 0,
    ensures
        m.undone().redone() == m,
{
    let u = m.undone();
    assert(u.redone().history.undo =~= m.history.undo);
    assert(u.redone().history.redo =~= m.history.redo);
}

/// A commit after an undo empties the redo stack, so that a redo afterwards
/// changes nothing.
pub proof fn commit_after_undo_drops_redo(m: EngineModel, x: int, y: int)
    ensures
        ({
            let u = m.undone();
            u.stroke is Idle && u.mode == Mode::FixedRadius ==> {
                &&& u.begun(x, y).history.redo.len() == 0
                &&& u.begun(x, y).redone() == u.begun(x, y)
            }
        }),
        ({
            let u = m.undone();
            u.stroke is Active ==> {
                &&& u.ended(x, y).history.redo.len() == 0
                &&& u.ended(x, y).redone() == u.ended(x, y)
            }
        }),
{
}

/// The preview of a drag at a pointer position is exactly the canvas that a
/// release at that position commits.
pub proof fn preview_matches_release(m: EngineModel, x: int, y: int)
    requires
        m.stroke is Active,
    ensures
        m.preview(x, y) == Some(m.ended(x, y).canvas),
{
}

} // verus!
