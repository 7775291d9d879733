use loupe::geometry::Rect;
use loupe::magnifier::{
    cache_needs_realloc, capture_needs_rebuild, capture_source_valid, clip_to_monitor, wheel_delta,
    RendererKind,
};

#[test]
fn renderer_names() {
    assert_eq!(RendererKind::from_str("classic"), Some(RendererKind::Classic));
    assert_eq!(RendererKind::from_str("  Magnification\n"), Some(RendererKind::Classic));
    assert_eq!(RendererKind::from_str("WC"), Some(RendererKind::Classic));
    assert_eq!(RendererKind::from_str("\tGPU "), Some(RendererKind::Gpu));
    assert_eq!(RendererKind::from_str("wgc"), Some(RendererKind::Gpu));
    assert_eq!(RendererKind::from_str("LanCzos"), Some(RendererKind::Gpu));
    assert_eq!(RendererKind::from_str("g pu"), None);
    assert_eq!(RendererKind::from_str(""), None);
    assert_eq!(RendererKind::Classic.as_str(), "classic");
    assert_eq!(RendererKind::Gpu.as_str(), "gpu");
    for k in [RendererKind::Classic, RendererKind::Gpu] {
        assert_eq!(RendererKind::from_str(k.as_str()), Some(k));
    }
}

#[test]
fn wheel_deltas() {
    assert_eq!(wheel_delta(120 << 16), Some(120));
    assert_eq!(wheel_delta(0xFF88 << 16), Some(-120));
    assert_eq!(wheel_delta(0x0000_0008), None);
    assert_eq!(wheel_delta(0), None);
}

#[test]
fn capture_decisions() {
    let src = Rect { left: 0, top: 0, right: 100, bottom: 100 };
    let thin = Rect { left: 0, top: 0, right: 1, bottom: 100 };
    assert!(capture_source_valid(src));
    assert!(!capture_source_valid(thin));
    assert!(capture_needs_rebuild(src, None, 7));
    assert!(capture_needs_rebuild(src, Some(3), 7));
    assert!(!capture_needs_rebuild(src, Some(7), 7));
    assert!(!capture_needs_rebuild(thin, None, 7));
    assert!(cache_needs_realloc(None, (10, 10)));
    assert!(cache_needs_realloc(Some((10, 11)), (10, 10)));
    assert!(!cache_needs_realloc(Some((10, 10)), (10, 10)));
}

#[test]
fn clipping_to_monitor() {
    let mon = Rect { left: 1920, top: 0, right: 3840, bottom: 1080 };
    let c = clip_to_monitor(Rect { left: 1800, top: 100, right: 2000, bottom: 300 }, mon);
    assert_eq!(c.clipped, Rect { left: 1920, top: 100, right: 2000, bottom: 300 });
    assert_eq!((c.extent_w, c.extent_h), (80, 200));
    assert_eq!((c.mon_w, c.mon_h), (1920, 1080));
    assert_eq!(c.rel, Rect { left: 0, top: 100, right: 80, bottom: 300 });
    let off = clip_to_monitor(Rect { left: 0, top: 0, right: 100, bottom: 100 }, mon);
    assert_eq!((off.extent_w, off.extent_h), (1920, 1080));
    assert_eq!(off.rel, Rect { left: 0, top: 0, right: -1820, bottom: 100 });
}
