use loupe::geometry::{Point, Rect};
use loupe::source_frame::{frame_bounds, hit_test, DragStart, FrameDrag, FrameHit};

#[test]
fn frame_covers_rect() {
    let r = Rect { left: -100, top: 20, right: 300, bottom: 220 };
    assert_eq!(frame_bounds(r), (-100, 20, 400, 200));
    let empty = Rect { left: 5, top: 5, right: 5, bottom: 4 };
    assert_eq!(frame_bounds(empty), (5, 5, 1, 1));
}

#[test]
fn middle_is_click_through() {
    let wr = Rect { left: 100, top: 100, right: 200, bottom: 200 };
    assert_eq!(hit_test(150, 150, wr), FrameHit::Transparent);
    assert_eq!(hit_test(106, 106, wr), FrameHit::Transparent);
    assert_eq!(hit_test(193, 193, wr), FrameHit::Transparent);
    assert_eq!(hit_test(105, 150, wr), FrameHit::Client);
    assert_eq!(hit_test(194, 150, wr), FrameHit::Client);
    assert_eq!(hit_test(150, 100, wr), FrameHit::Client);
    let small = Rect { left: 0, top: 0, right: 12, bottom: 50 };
    assert_eq!(hit_test(6, 25, small), FrameHit::Client);
}

#[test]
fn border_drag_is_absolute() {
    let mut d = FrameDrag::new();
    assert_eq!(d.motion(1, true, Point { x: 1, y: 1 }), None);
    d.press(Point { x: 500, y: 500 }, Point { x: 100, y: 100 });
    assert_eq!(
        d.active,
        Some(DragStart { mouse: Point { x: 500, y: 500 }, top_left: Point { x: 100, y: 100 } })
    );
    assert_eq!(d.motion(1, true, Point { x: 510, y: 495 }), Some(Point { x: 110, y: 95 }));
    assert_eq!(d.motion(1, true, Point { x: 500, y: 500 }), Some(Point { x: 100, y: 100 }));
    assert_eq!(d.motion(0, true, Point { x: 510, y: 495 }), None);
    assert_eq!(d.motion(1, false, Point { x: 510, y: 495 }), None);
    assert_eq!(d.motion(0x1_0001, true, Point { x: 490, y: 500 }), Some(Point { x: 90, y: 100 }));
    d.release();
    assert_eq!(d.motion(1, true, Point { x: 510, y: 495 }), None);
}
