use loupe::config::HotkeyConfig;
use loupe::window::{command_id, fullscreen_style, tray_notification, Fullscreen, HotkeyState};

#[test]
fn message_words() {
    assert_eq!(command_id(0x0001_0064), 100);
    assert_eq!(tray_notification(0x0001_0205), 0x0205);
    assert_eq!(tray_notification(-1), 0xFFFF);
}

#[test]
fn hotkey_registration() {
    let mut h = HotkeyState::new();
    assert!(!h.registered);
    assert!(h.record_registration(true, 2, 0x70));
    assert_eq!(h.current, Some(HotkeyConfig { mods: 2, vkey: 0x70 }));
    assert!(!h.record_registration(false, 1, 0x41));
    assert!(!h.registered);
    assert_eq!(h.current, Some(HotkeyConfig { mods: 2, vkey: 0x70 }));
}

#[test]
fn fullscreen_round_trip() {
    let style: isize = 0x14CF_0000;
    assert_eq!(fullscreen_style(style), 0x1400_0000);
    let mut f: Fullscreen<(i32, i32)> = Fullscreen::new();
    assert!(!f.is_fullscreen());
    assert_eq!(f.enter(style, (10, 20)), 0x1400_0000);
    assert!(f.is_fullscreen());
    assert_eq!(f.exit(), Some((style, (10, 20))));
    assert!(!f.is_fullscreen());
    assert_eq!(f.exit(), None);
}
