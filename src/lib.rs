//! A raster stamp-drawing engine: a committed RGB canvas, filled-disc stamps,
//! an interactive drag preview that never touches the committed canvas, and a
//! linear undo/redo history of whole-canvas snapshots.

pub mod canvas;
pub mod engine;
pub mod history;
pub mod laws;
pub mod stroke;
pub mod user;

pub use canvas::{CanvasModel, Color, PixelCanvas};
pub use engine::{Engine, EngineModel};
pub use history::{History, HistoryModel};
pub use laws::{commit_after_undo_drops_redo, preview_matches_release, redo_reverts_undo, undo_reverts_commit};
pub use stroke::{drag_radius, DrawConfig, Mode, StrokeState};
