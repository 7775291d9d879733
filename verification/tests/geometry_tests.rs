use loupe::geometry::{border_bands, repaint_area, BorderBands, Point, Rect};

#[test]
fn sizes_and_center() {
    let r = Rect { left: 10, top: 20, right: 110, bottom: 70 };
    assert_eq!(r.width(), 100);
    assert_eq!(r.height(), 50);
    assert_eq!(r.width_or_one(), 100);
    assert_eq!(Rect { left: 3, top: 3, right: 3, bottom: 1 }.height_or_one(), 1);
    assert_eq!(r.center(), Point { x: 60, y: 45 });
    assert_eq!(Rect { left: -3, top: -5, right: 0, bottom: 0 }.center(), Point { x: -1, y: -2 });
    assert_eq!(Rect::zero(), Rect { left: 0, top: 0, right: 0, bottom: 0 });
}

#[test]
fn repaint_covers_old_and_new() {
    let a = Rect { left: 0, top: 0, right: 10, bottom: 10 };
    let b = Rect { left: 5, top: -5, right: 20, bottom: 8 };
    assert_eq!(repaint_area(a, b), Some(Rect { left: 0, top: -5, right: 20, bottom: 10 }));
    assert_eq!(repaint_area(b, a), repaint_area(a, b));
    assert_eq!(repaint_area(a, a), Some(a));
    let flat = Rect { left: 0, top: 0, right: 10, bottom: 0 };
    assert_eq!(repaint_area(flat, flat), None);
}

#[test]
fn bands_of_thin_rect() {
    let r = Rect { left: 0, top: 0, right: 2, bottom: 10 };
    assert_eq!(
        border_bands(r, 3),
        BorderBands {
            top: Rect { left: 0, top: 0, right: 2, bottom: 3 },
            bottom: Rect { left: 0, top: 7, right: 2, bottom: 10 },
            left: Rect { left: 0, top: 0, right: 2, bottom: 10 },
            right: Rect { left: 0, top: 0, right: 2, bottom: 10 },
        }
    );
}
