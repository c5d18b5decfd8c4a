//! The engine: one owner of the committed canvas, its history, the drawing
//! configuration and the gesture in progress.

use vstd::prelude::*;

use crate::canvas::{CanvasModel, Color, PixelCanvas};
use crate::history::{History, HistoryModel};
use crate::stroke::{drag_radius, drag_radius_of, DrawConfig, Mode, StrokeState};

verus! {

/// The committed canvas, the undo/redo history, the configuration and the
/// gesture in progress.
pub struct Engine {
    canvas: PixelCanvas,
    history: History,
    config: DrawConfig,
    mode: Mode,
    stroke: StrokeState,
}

/// The abstract value of an engine.
pub struct EngineModel {
    pub canvas: CanvasModel,
    pub history: HistoryModel,
    pub config: DrawConfig,
    pub mode: Mode,
    pub stroke: StrokeState,
}

/// A snapshot that can stand in for a canvas of the given size.
pub open spec fn fits(s: CanvasModel, width: u32, height: u32) -> bool {
    s.wf() && s.width == width && s.height == height
}

impl EngineModel {
    /// Every canvas that the engine holds or can bring back is well formed
    /// and has the size of the committed canvas.
    pub open spec fn wf(self) -> bool {
        &&& self.canvas.wf()
        &&& forall|i: int| 0 <= i < self.history.undo.len()
            ==> fits(#[trigger] self.history.undo[i], self.canvas.width, self.canvas.height)
        &&& forall|i: int| 0 <= i < self.history.redo.len()
            ==> fits(#[trigger] self.history.redo[i], self.canvas.width, self.canvas.height)
    }

    /// A commit of the disc of radius `r` around `(cx, cy)` in the configured
    /// colour: the canvas before it goes on the undo stack, the redo stack is
    /// emptied, and the disc is painted on the committed canvas.
    pub open spec fn commit(self, cx: int, cy: int, r: int) -> EngineModel {
        EngineModel {
            canvas: self.canvas.stamped(cx, cy, r, self.config.color.rgb()),
            history: HistoryModel { undo: self.history.undo.push(self.canvas), redo: Seq::empty() },
            ..self
        }
    }

    /// The state after an undo: unchanged when there is nothing to undo.
    pub open spec fn undone(self) -> EngineModel {
        if self.history.undo.len() == 0 {
            self
        } else {
            EngineModel {
                canvas: self.history.undo.last(),
                history: HistoryModel {
                    undo: self.history.undo.drop_last(),
                    redo: self.history.redo.push(self.canvas),
                },
                ..self
            }
        }
    }

    /// The state after a redo: unchanged when there is nothing to redo.
    pub open spec fn redone(self) -> EngineModel {
        if self.history.redo.len() == 0 {
            self
        } else {
            EngineModel {
                canvas: self.history.redo.last(),
                history: HistoryModel {
                    undo: self.history.undo.push(self.canvas),
                    redo: self.history.redo.drop_last(),
                },
                ..self
            }
        }
    }

    /// The state after a press at `(x, y)`. A press during a gesture is
    /// ignored. In fixed-radius mode it commits the configured radius around
    /// the press; in drag mode it starts a gesture anchored there.
    pub open spec fn begun(self, x: int, y: int) -> EngineModel {
        match self.stroke {
            StrokeState::Active { .. } => self,
            StrokeState::Idle => match self.mode {
                Mode::FixedRadius => self.commit(x, y, self.config.radius as int),
                Mode::DragToSize => EngineModel {
                    stroke: StrokeState::Active { anchor_x: x as i32, anchor_y: y as i32 },
                    ..self
                },
            },
        }
    }

    /// What the display shows while the pointer is at `(x, y)` during a
    /// gesture: the committed canvas with the gesture's disc on it. Outside a
    /// gesture there is nothing to preview.
    pub open spec fn preview(self, x: int, y: int) -> Option<CanvasModel> {
        match self.stroke {
            StrokeState::Idle => None,
            StrokeState::Active { anchor_x, anchor_y } => Some(
                self.canvas.stamped(
                    anchor_x as int,
                    anchor_y as int,
                    drag_radius_of(anchor_x as int, anchor_y as int, x, y),
                    self.config.color.rgb(),
                ),
            ),
        }
    }

    /// The state after a release at `(x, y)`: the gesture ends and its disc,
    /// sized by the release point, is committed. Outside a gesture nothing
    /// changes.
    pub open spec fn ended(self, x: int, y: int) -> EngineModel {
        match self.stroke {
            StrokeState::Idle => self,
            StrokeState::Active { anchor_x, anchor_y } => EngineModel {
                stroke: StrokeState::Idle,
                ..self
            }.commit(anchor_x as int, anchor_y as int, drag_radius_of(anchor_x as int, anchor_y as int, x, y)),
        }
    }
}

impl View for Engine {
    type V = EngineModel;

    closed spec fn view(&self) -> EngineModel {
        EngineModel {
            canvas: self.canvas@,
            history: self.history@,
            config: self.config,
            mode: self.mode,
            stroke: self.stroke,
        }
    }
}

impl Engine {
    /// An engine over a `width` × `height` canvas filled with `fill`, with an
    /// empty history and no gesture in progress.
    pub fn new(width: u32, height: u32, fill: Color, config: DrawConfig, mode: Mode) -> (r: Engine)
        requires
            3 * (width as int) * (height as int) <= isize::MAX,
        ensures
            r@.canvas.width == width,
            r@.canvas.height == height,
            r@.canvas.pixels == crate::canvas::uniform(width, height, fill.rgb()),
            r@.history.undo == Seq::<CanvasModel>::empty(),
            r@.history.redo == Seq::<CanvasModel>::empty(),
            r@.config == config,
            r@.mode == mode,
            r@.stroke == StrokeState::Idle,
            r@.wf(),
    {
        Engine {
            canvas: PixelCanvas::new(width, height, fill),
            history: History::new(),
            config,
            mode,
            stroke: StrokeState::Idle,
        }
    }

    /// Commits the disc of radius `r` around `(cx, cy)` in the configured
    /// colour.
    fn commit(&mut self, cx: i32, cy: i32, r: u64)
        requires
            old(self)@.wf(),
        ensures
            final(self)@ == old(self)@.commit(cx as int, cy as int, r as int),
            final(self)@.wf(),
    {
        let pre = self.canvas.snapshot();
        self.history.record(pre);
        self.canvas.stamp_circle(cx, cy, r, self.config.color);
        proof {
            let m = self@;
            assert forall|i: int| 0 <= i < m.history.undo.len() implies fits(
                #[trigger] m.history.undo[i],
                m.canvas.width,
                m.canvas.height,
            ) by {
                if i < old(self)@.history.undo.len() {
                    assert(m.history.undo[i] == old(self)@.history.undo[i]);
                }
            }
        }
    }

    /// Sets the configuration that later stamps use; a negative radius is
    /// taken as 0. A gesture in progress keeps its anchor, and its disc takes
    /// the new colour from the next preview or release on.
    pub fn apply_config(&mut self, radius: i32, color: Color)
        requires
            old(self)@.wf(),
        ensures
            final(self)@ == (EngineModel {
                config: DrawConfig { radius: if radius < 0 { 0 } else { radius as u32 }, color },
                ..old(self)@
            }),
            final(self)@.wf(),
    {
        let r: u32 = if radius < 0 { 0 } else { radius as u32 };
        self.config = DrawConfig { radius: r, color };
    }

    /// Chooses how the next gesture sizes its disc.
    pub fn set_mode(&mut self, mode: Mode)
        requires
            old(self)@.wf(),
        ensures
            final(self)@ == (EngineModel { mode, ..old(self)@ }),
            final(self)@.wf(),
    {
        self.mode = mode;
    }

    /// The committed canvas.
    pub fn canvas(&self) -> (r: &PixelCanvas)
        ensures
            r@ == self@.canvas,
    {
        &self.canvas
    }

    /// The committed canvas's pixel buffer for display.
    pub fn current_canvas(&self) -> (r: Vec<u8>)
        ensures
            crate::canvas::row_major_rgb(r@, self@.canvas),
    {
        self.canvas.to_rgb_bytes()
    }

    pub fn config(&self) -> (r: DrawConfig)
        ensures
            r == self@.config,
    {
        self.config
    }

    pub fn mode(&self) -> (r: Mode)
        ensures
            r == self@.mode,
    {
        self.mode
    }

    pub fn stroke(&self) -> (r: StrokeState)
        ensures
            r == self@.stroke,
    {
        self.stroke
    }

    /// A press at `(x, y)`: see `EngineModel::begun`.
    pub fn begin_stroke(&mut self, x: i32, y: i32)
        requires
            old(self)@.wf(),
        ensures
            final(self)@ == old(self)@.begun(x as int, y as int),
            final(self)@.wf(),
    {
        match self.stroke {
            StrokeState::Active { .. } => {},
            StrokeState::Idle => match self.mode {
                Mode::FixedRadius => {
                    let r = self.config.radius;
                    self.commit(x, y, r as u64);
                },
                Mode::DragToSize => {
                    self.stroke = StrokeState::Active { anchor_x: x, anchor_y: y };
                },
            },
        }
    }

    /// The preview for the pointer at `(x, y)` during a gesture, as a canvas
    /// of its own; the committed canvas is left as it is.
    pub fn update_stroke(&self, x: i32, y: i32) -> (r: Option<PixelCanvas>)
        requires
            self@.wf(),
        ensures
            r matches Some(p) ==> self@.preview(x as int, y as int) == Some(p@),
            r is None ==> self@.preview(x as int, y as int) is None,
    {
        match self.stroke {
            StrokeState::Idle => None,
            StrokeState::Active { anchor_x, anchor_y } => {
                let r = drag_radius(anchor_x, anchor_y, x, y);
                let mut preview = self.canvas.snapshot();
                preview.stamp_circle(anchor_x, anchor_y, r, self.config.color);
                Some(preview)
            },
        }
    }

    /// A release at `(x, y)`: see `EngineModel::ended`.
    pub fn end_stroke(&mut self, x: i32, y: i32)
        requires
            old(self)@.wf(),
        ensures
            final(self)@ == old(self)@.ended(x as int, y as int),
            final(self)@.wf(),
    {
        match self.stroke {
            StrokeState::Idle => {},
            StrokeState::Active { anchor_x, anchor_y } => {
                self.stroke = StrokeState::Idle;
                let r = drag_radius(anchor_x, anchor_y, x, y);
                self.commit(anchor_x, anchor_y, r);
            },
        }
    }

    /// Steps back to the canvas before the last commit; `false`, with nothing
    /// changed, when there is none.
    pub fn undo(&mut self) -> (changed: bool)
        requires
            old(self)@.wf(),
        ensures
            changed == (old(self)@.history.undo.len() > 0),
            final(self)@ == old(self)@.undone(),
            final(self)@.wf(),
    {
        let changed = self.history.undo(&mut self.canvas);
        proof {
            let m0 = old(self)@;
            let m = self@;
            if changed {
                assert(fits(m0.history.undo[m0.history.undo.len() - 1], m0.canvas.width, m0.canvas.height));
                assert forall|i: int| 0 <= i < m.history.redo.len() implies fits(
                    #[trigger] m.history.redo[i],
                    m.canvas.width,
                    m.canvas.height,
                ) by {
                    if i < m0.history.redo.len() {
                        assert(m.history.redo[i] == m0.history.redo[i]);
                    }
                }
                assert forall|i: int| 0 <= i < m.history.undo.len() implies fits(
                    #[trigger] m.history.undo[i],
                    m.canvas.width,
                    m.canvas.height,
                ) by {
                    assert(m.history.undo[i] == m0.history.undo[i]);
                }
            }
        }
        changed
    }

    /// Steps forward to the canvas that the last undo left; `false`, with
    /// nothing changed, when there is none.
    pub fn redo(&mut self) -> (changed: bool)
        requires
            old(self)@.wf(),
        ensures
            changed == (old(self)@.history.redo.len() > 0),
            final(self)@ == old(self)@.redone(),
            final(self)@.wf(),
    {
        let changed = self.history.redo(&mut self.canvas);
        proof {
            let m0 = old(self)@;
            let m = self@;
            if changed {
                assert(fits(m0.history.redo[m0.history.redo.len() - 1], m0.canvas.width, m0.canvas.height));
                assert forall|i: int| 0 <= i < m.history.undo.len() implies fits(
                    #[trigger] m.history.undo[i],
                    m.canvas.width,
                    m.canvas.height,
                ) by {
                    if i < m0.history.undo.len() {
                        assert(m.history.undo[i] == m0.history.undo[i]);
                    }
                }
                assert forall|i: int| 0 <= i < m.history.redo.len() implies fits(
                    #[trigger] m.history.redo[i],
                    m.canvas.width,
                    m.canvas.height,
                ) by {
                    assert(m.history.redo[i] == m0.history.redo[i]);
                }
            }
        }
        changed
    }
}

} // verus!
