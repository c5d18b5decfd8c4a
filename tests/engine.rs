use stamp_paint::{drag_radius, Color, DrawConfig, Engine, History, Mode, PixelCanvas, StrokeState};

const WHITE: Color = Color { red: 255, green: 255, blue: 255 };
const RED: Color = Color { red: 255, green: 0, blue: 0 };
const BLUE: Color = Color { red: 0, green: 0, blue: 255 };

fn in_disc(cx: i64, cy: i64, r: i64, x: i64, y: i64) -> bool {
    r > 0 && (x - cx) * (x - cx) + (y - cy) * (y - cy) <= r * r
}

/// The bytes of a `w` × `h` canvas of colour `bg` with the given discs painted
/// in order.
fn expected(w: u32, h: u32, bg: Color, discs: &[(i64, i64, i64, Color)]) -> Vec<u8> {
    let mut out = Vec::new();
    for y in 0..h as i64 {
        for x in 0..w as i64 {
            let mut c = bg;
            for &(cx, cy, r, col) in discs {
                if in_disc(cx, cy, r, x, y) {
                    c = col;
                }
            }
            out.extend_from_slice(&[c.red, c.green, c.blue]);
        }
    }
    out
}

fn count_changed(a: &[u8], b: &[u8]) -> usize {
    a.chunks(3).zip(b.chunks(3)).filter(|(p, q)| p != q).count()
}

fn engine(w: u32, h: u32, radius: u32, color: Color, mode: Mode) -> Engine {
    Engine::new(w, h, WHITE, DrawConfig { radius, color }, mode)
}

#[test]
fn drag_preview_commit_undo_redo_scenario() {
    let mut e = engine(800, 600, 30, RED, Mode::DragToSize);
    let white = expected(800, 600, WHITE, &[]);
    let disc = expected(800, 600, WHITE, &[(100, 100, 30, RED)]);
    e.begin_stroke(100, 100);
    assert_eq!(e.stroke(), StrokeState::Active { anchor_x: 100, anchor_y: 100 });
    let preview = e.update_stroke(130, 100).expect("a drag is in progress");
    assert_eq!(preview.to_rgb_bytes(), disc);
    assert_eq!(e.current_canvas(), white);
    e.end_stroke(130, 100);
    assert_eq!(e.stroke(), StrokeState::Idle);
    assert_eq!(e.current_canvas(), disc);
    assert!(e.undo());
    assert_eq!(e.current_canvas(), white);
    assert!(e.redo());
    assert_eq!(e.current_canvas(), disc);
}

#[test]
fn two_fixed_stamps_undo_redo_scenario() {
    let mut e = engine(200, 150, 10, RED, Mode::FixedRadius);
    e.begin_stroke(40, 40);
    let first = e.current_canvas();
    assert_eq!(first, expected(200, 150, WHITE, &[(40, 40, 10, RED)]));
    e.begin_stroke(120, 90);
    let both = e.current_canvas();
    assert_eq!(both, expected(200, 150, WHITE, &[(40, 40, 10, RED), (120, 90, 10, RED)]));
    assert!(e.undo());
    assert_eq!(e.current_canvas(), first);
    assert!(e.redo());
    assert_eq!(e.current_canvas(), both);
}

#[test]
fn stamp_paints_exactly_the_disc() {
    let mut c = PixelCanvas::new(40, 30, WHITE);
    c.stamp_circle(20, 15, 5, BLUE);
    assert_eq!(c.to_rgb_bytes(), expected(40, 30, WHITE, &[(20, 15, 5, BLUE)]));
    // A disc of radius 5 holds 81 lattice points.
    assert_eq!(count_changed(&c.to_rgb_bytes(), &expected(40, 30, WHITE, &[])), 81);
    assert_eq!(c.pixel(25, 15), BLUE);
    assert_eq!(c.pixel(24, 18), BLUE);
    assert_eq!(c.pixel(24, 19), WHITE);
    assert_eq!(c.pixel(26, 15), WHITE);
}

#[test]
fn stamp_of_radius_zero_changes_nothing() {
    let mut c = PixelCanvas::new(10, 10, WHITE);
    c.stamp_circle(5, 5, 0, RED);
    assert_eq!(c.to_rgb_bytes(), expected(10, 10, WHITE, &[]));
    assert_eq!(c.pixel(5, 5), WHITE);
}

#[test]
fn stamp_of_radius_one_is_a_plus() {
    let mut c = PixelCanvas::new(5, 5, WHITE);
    c.stamp_circle(2, 2, 1, RED);
    assert_eq!(count_changed(&c.to_rgb_bytes(), &expected(5, 5, WHITE, &[])), 5);
    assert_eq!(c.pixel(1, 1), WHITE);
    assert_eq!(c.pixel(2, 1), RED);
}

#[test]
fn stamp_off_canvas_is_clipped() {
    let mut c = PixelCanvas::new(20, 20, WHITE);
    c.stamp_circle(-3, 10, 5, RED);
    assert_eq!(c.to_rgb_bytes(), expected(20, 20, WHITE, &[(-3, 10, 5, RED)]));
    assert_eq!(c.pixel(0, 10), RED);
    assert_eq!(c.pixel(2, 10), RED);
    assert_eq!(c.pixel(3, 10), WHITE);
}

#[test]
fn stamp_far_outside_touches_nothing() {
    let mut c = PixelCanvas::new(20, 20, WHITE);
    c.stamp_circle(i32::MIN, i32::MAX, 1000, RED);
    c.stamp_circle(i32::MAX, -5, 1000, RED);
    c.stamp_circle(25, 25, 7, RED);
    assert_eq!(c.to_rgb_bytes(), expected(20, 20, WHITE, &[]));
}

#[test]
fn huge_radius_covers_the_canvas() {
    let mut c = PixelCanvas::new(8, 6, WHITE);
    c.stamp_circle(i32::MIN, i32::MIN, u64::MAX, BLUE);
    assert_eq!(c.to_rgb_bytes(), expected(8, 6, BLUE, &[]));
}

#[test]
fn later_stamps_overwrite_earlier_ones() {
    let mut c = PixelCanvas::new(30, 30, WHITE);
    c.stamp_circle(10, 10, 6, RED);
    c.stamp_circle(14, 10, 6, BLUE);
    assert_eq!(c.to_rgb_bytes(), expected(30, 30, WHITE, &[(10, 10, 6, RED), (14, 10, 6, BLUE)]));
    assert_eq!(c.pixel(12, 10), BLUE);
    assert_eq!(c.pixel(5, 10), RED);
}

#[test]
fn new_canvas_is_uniform() {
    let c = PixelCanvas::new(3, 2, RED);
    assert_eq!(c.width(), 3);
    assert_eq!(c.height(), 2);
    assert_eq!(c.to_rgb_bytes(), vec![255, 0, 0, 255, 0, 0, 255, 0, 0, 255, 0, 0, 255, 0, 0, 255, 0, 0]);
}

#[test]
fn raw_bytes_are_row_major() {
    let mut c = PixelCanvas::new(3, 2, WHITE);
    c.stamp_circle(2, 1, 0, RED);
    c.stamp_circle(-1, 1, 1, Color { red: 1, green: 2, blue: 3 });
    let bytes = c.to_rgb_bytes();
    assert_eq!(bytes.len(), 18);
    // Only (0, 1) lies within the disc; it starts at byte 3 * (1 * 3 + 0).
    assert_eq!(&bytes[9..12], &[1, 2, 3]);
    assert_eq!(count_changed(&bytes, &expected(3, 2, WHITE, &[])), 1);
}

#[test]
fn snapshot_is_independent() {
    let mut c = PixelCanvas::new(10, 10, WHITE);
    let s = c.snapshot();
    c.stamp_circle(5, 5, 3, RED);
    assert_eq!(s.to_rgb_bytes(), expected(10, 10, WHITE, &[]));
    assert_ne!(c.to_rgb_bytes(), s.to_rgb_bytes());
}

#[test]
fn drag_radius_rounds_toward_zero() {
    assert_eq!(drag_radius(100, 100, 130, 100), 30);
    assert_eq!(drag_radius(0, 0, 3, 4), 5);
    assert_eq!(drag_radius(0, 0, 1, 1), 1);
    assert_eq!(drag_radius(0, 0, 2, 2), 2);
    assert_eq!(drag_radius(5, 5, 5, 5), 0);
    assert_eq!(drag_radius(10, 0, 0, 0), 10);
    assert_eq!(drag_radius(i32::MIN, i32::MIN, i32::MAX, i32::MAX), 6074000998);
}

#[test]
fn undo_then_redo_restores_the_state() {
    let mut e = engine(50, 50, 5, RED, Mode::FixedRadius);
    e.begin_stroke(10, 10);
    e.begin_stroke(30, 30);
    let before = e.current_canvas();
    assert!(e.undo());
    assert!(e.redo());
    assert_eq!(e.current_canvas(), before);
    assert!(!e.redo());
}

#[test]
fn commit_after_undo_drops_the_redo_branch() {
    let mut e = engine(50, 50, 5, RED, Mode::FixedRadius);
    e.begin_stroke(10, 10);
    e.begin_stroke(30, 30);
    assert!(e.undo());
    e.begin_stroke(40, 10);
    let after = e.current_canvas();
    assert_eq!(after, expected(50, 50, WHITE, &[(10, 10, 5, RED), (40, 10, 5, RED)]));
    assert!(!e.redo());
    assert_eq!(e.current_canvas(), after);
    assert!(e.undo());
    assert!(e.undo());
    assert_eq!(e.current_canvas(), expected(50, 50, WHITE, &[]));
    assert!(!e.undo());
}

#[test]
fn undo_and_redo_on_empty_history_change_nothing() {
    let mut e = engine(10, 10, 3, RED, Mode::FixedRadius);
    assert!(!e.undo());
    assert!(!e.redo());
    assert_eq!(e.current_canvas(), expected(10, 10, WHITE, &[]));
}

#[test]
fn preview_leaves_the_canvas_and_history_alone() {
    let mut e = engine(60, 60, 5, BLUE, Mode::DragToSize);
    e.begin_stroke(30, 30);
    let p1 = e.update_stroke(40, 30).unwrap();
    let p2 = e.update_stroke(33, 34).unwrap();
    assert_eq!(p1.to_rgb_bytes(), expected(60, 60, WHITE, &[(30, 30, 10, BLUE)]));
    assert_eq!(p2.to_rgb_bytes(), expected(60, 60, WHITE, &[(30, 30, 5, BLUE)]));
    assert_eq!(e.current_canvas(), expected(60, 60, WHITE, &[]));
    assert!(!e.undo());
    e.end_stroke(33, 34);
    assert_eq!(e.current_canvas(), p2.to_rgb_bytes());
}

#[test]
fn update_and_end_while_idle_are_ignored() {
    let mut e = engine(20, 20, 5, RED, Mode::DragToSize);
    assert!(e.update_stroke(5, 5).is_none());
    e.end_stroke(5, 5);
    assert_eq!(e.current_canvas(), expected(20, 20, WHITE, &[]));
    assert!(!e.undo());
}

#[test]
fn second_press_during_a_drag_is_ignored() {
    let mut e = engine(40, 40, 5, RED, Mode::DragToSize);
    e.begin_stroke(10, 10);
    e.begin_stroke(30, 30);
    assert_eq!(e.stroke(), StrokeState::Active { anchor_x: 10, anchor_y: 10 });
    e.end_stroke(10, 14);
    assert_eq!(e.current_canvas(), expected(40, 40, WHITE, &[(10, 10, 4, RED)]));
}

#[test]
fn drag_release_at_the_anchor_commits_an_empty_stamp() {
    let mut e = engine(20, 20, 5, RED, Mode::DragToSize);
    e.begin_stroke(10, 10);
    e.end_stroke(10, 10);
    assert_eq!(e.current_canvas(), expected(20, 20, WHITE, &[]));
    assert!(e.undo());
    assert!(e.redo());
}

#[test]
fn config_applies_to_later_stamps() {
    let mut e = engine(40, 40, 3, RED, Mode::FixedRadius);
    e.begin_stroke(10, 10);
    e.apply_config(6, BLUE);
    assert_eq!(e.config(), DrawConfig { radius: 6, color: BLUE });
    e.begin_stroke(30, 30);
    assert_eq!(e.current_canvas(), expected(40, 40, WHITE, &[(10, 10, 3, RED), (30, 30, 6, BLUE)]));
}

#[test]
fn negative_config_radius_is_taken_as_zero() {
    let mut e = engine(20, 20, 3, RED, Mode::FixedRadius);
    e.apply_config(-4, BLUE);
    assert_eq!(e.config().radius, 0);
    e.begin_stroke(10, 10);
    assert_eq!(e.current_canvas(), expected(20, 20, WHITE, &[]));
    assert!(e.undo());
}

#[test]
fn colour_change_during_a_drag_shows_in_the_commit() {
    let mut e = engine(40, 40, 3, RED, Mode::DragToSize);
    e.begin_stroke(20, 20);
    e.apply_config(3, BLUE);
    e.end_stroke(20, 27);
    assert_eq!(e.current_canvas(), expected(40, 40, WHITE, &[(20, 20, 7, BLUE)]));
}

#[test]
fn mode_switch_takes_effect_on_the_next_press() {
    let mut e = engine(40, 40, 4, RED, Mode::DragToSize);
    e.set_mode(Mode::FixedRadius);
    assert_eq!(e.mode(), Mode::FixedRadius);
    e.begin_stroke(20, 20);
    assert_eq!(e.stroke(), StrokeState::Idle);
    assert_eq!(e.current_canvas(), expected(40, 40, WHITE, &[(20, 20, 4, RED)]));
}

#[test]
fn canvas_accessor_reads_pixels() {
    let mut e = engine(16, 16, 2, BLUE, Mode::FixedRadius);
    e.begin_stroke(8, 8);
    assert_eq!(e.canvas().pixel(8, 10), BLUE);
    assert_eq!(e.canvas().pixel(9, 10), WHITE);
    assert_eq!(e.canvas().width(), 16);
}

#[test]
fn history_stacks_swap_canvases() {
    let mut h = History::new();
    let mut current = PixelCanvas::new(4, 4, WHITE);
    assert!(!h.undo(&mut current));
    h.record(current.snapshot());
    current.stamp_circle(1, 1, 1, RED);
    let stamped = current.to_rgb_bytes();
    assert!(h.undo(&mut current));
    assert_eq!(current.to_rgb_bytes(), expected(4, 4, WHITE, &[]));
    assert!(h.redo(&mut current));
    assert_eq!(current.to_rgb_bytes(), stamped);
    assert!(!h.redo(&mut current));
}
