use loupe::geometry::{BorderBands, Point, Rect};
use loupe::region::{lo_hi, Selection};

#[test]
fn mouse_coordinates() {
    assert_eq!(lo_hi(0x0028_0032), (0x32, 0x28));
    assert_eq!(lo_hi(0xFFFE_FFFFu32 as isize), (-1, -2));
    assert_eq!(lo_hi(-1), (-1, -1));
    assert_eq!(lo_hi(0x8000_7FFFu32 as isize), (32767, -32768));
}

#[test]
fn drag_commits_virtual_screen_rect() {
    let mut s = Selection::new();
    s.press(10, 10);
    s.motion(50, 40);
    assert_eq!(s.current(), Point { x: 50, y: 40 });
    let r = s.release(50, 40, -1920, 0);
    assert_eq!(r, Some(Rect { left: -1910, top: 10, right: -1870, bottom: 40 }));
    assert!(!s.dragging());
}

#[test]
fn drag_direction_does_not_matter() {
    let mut a = Selection::new();
    a.press(60, 70);
    let ra = a.release(20, 30, 5, 7);
    let mut b = Selection::new();
    b.press(20, 30);
    let rb = b.release(60, 70, 5, 7);
    assert_eq!(ra, rb);
    assert_eq!(ra, Some(Rect { left: 25, top: 37, right: 65, bottom: 77 }));
}

#[test]
fn small_or_missing_drag_is_rejected() {
    let mut s = Selection::new();
    s.press(10, 10);
    assert_eq!(s.release(18, 100, 0, 0), None);
    let mut s = Selection::new();
    s.press(10, 10);
    assert_eq!(s.release(19, 19, 0, 0), Some(Rect { left: 10, top: 10, right: 19, bottom: 19 }));
    let mut s = Selection::new();
    assert_eq!(s.release(100, 100, 0, 0), None);
    assert_eq!(s.committed_rect(), Rect { left: 0, top: 0, right: 0, bottom: 0 });
}

#[test]
fn motion_without_press_is_ignored() {
    let mut s = Selection::new();
    s.motion(5, 5);
    assert_eq!(s.current(), Point { x: 0, y: 0 });
    assert_eq!(s.paint_shapes(), None);
}

#[test]
fn rainbow_hue_wraps() {
    let mut s = Selection::new();
    s.tick();
    assert_eq!(s.hue(), 4);
    for _ in 0..89 {
        s.tick();
    }
    assert_eq!(s.hue(), 0);
}

#[test]
fn paint_shapes_while_dragging() {
    let mut s = Selection::new();
    s.press(100, 100);
    s.motion(20, 50);
    let (sel, bands) = s.paint_shapes().unwrap();
    assert_eq!(sel, Rect { left: 20, top: 50, right: 100, bottom: 100 });
    assert_eq!(
        bands,
        BorderBands {
            top: Rect { left: 20, top: 50, right: 100, bottom: 54 },
            bottom: Rect { left: 20, top: 96, right: 100, bottom: 100 },
            left: Rect { left: 20, top: 50, right: 24, bottom: 100 },
            right: Rect { left: 96, top: 50, right: 100, bottom: 100 },
        }
    );
    assert_eq!(s.start(), Point { x: 100, y: 100 });
}
