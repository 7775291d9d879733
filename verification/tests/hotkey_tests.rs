use loupe::hotkey::{
    bind_dialog_origin, bind_key_action, format_binding, is_modifier, key_code,
    modifiers_from_key_states, pack, register_modifiers, text_row_rect, unpack, BindAction,
};
use loupe::geometry::{Point, Rect};

#[test]
fn pack_and_unpack() {
    assert_eq!(pack(2, 0x41), 0x20041);
    assert_eq!(unpack(0x20041), (2, 0x41));
    assert_eq!(unpack(pack(0x4007, 0xFFFF)), (0x4007, 0xFFFF));
    // Only the low 16 bits of the key code travel.
    assert_eq!(unpack(pack(1, 0x1_0041)), (1, 0x41));
    // Only the low 32 bits of the LPARAM are read.
    assert_eq!(unpack(0x0012_0034_0005 as isize), (0x34, 5));
}

#[test]
fn register_adds_norepeat() {
    assert_eq!(register_modifiers(2), 0x4002);
    assert_eq!(register_modifiers(0x4001), 0x4001);
}

#[test]
fn binding_labels() {
    assert_eq!(format_binding(3, 0x70, Some("F1")), "Ctrl+Alt+F1");
    assert_eq!(format_binding(7, 0x5A, Some("Z")), "Ctrl+Alt+Shift+Z");
    assert_eq!(format_binding(4, 0x41, None), "Shift+VK0x41");
    assert_eq!(format_binding(0, 5, None), "VK0x05");
    assert_eq!(format_binding(2, 0x1FF, None), "Ctrl+VK0x1FF");
    assert_eq!(format_binding(2, 0xAB, None), format!("Ctrl+VK{:#04X}", 0xABu32));
}

#[test]
fn modifier_keys() {
    for vk in [0x10u16, 0x11, 0x12, 0xA0, 0xA1, 0xA2, 0xA3, 0xA4, 0xA5, 0x5B, 0x5C] {
        assert!(is_modifier(vk));
    }
    assert!(!is_modifier(0x41));
    assert!(!is_modifier(0x1B));
}

#[test]
fn key_states_to_modifiers() {
    assert_eq!(modifiers_from_key_states(0, 0, 0), 0);
    assert_eq!(modifiers_from_key_states(-128, 0, 1), 2);
    assert_eq!(modifiers_from_key_states(-1, -1, -1), 7);
    assert_eq!(modifiers_from_key_states(1, -32768, 0), 1);
    assert_eq!(modifiers_from_key_states(0, 0, i16::MIN), 4);
}

#[test]
fn bind_dialog_decisions() {
    assert_eq!(bind_key_action(0x1B, 2), BindAction::Cancel);
    assert_eq!(bind_key_action(0x1B, 0), BindAction::Cancel);
    assert_eq!(bind_key_action(0x11, 2), BindAction::Ignore);
    assert_eq!(bind_key_action(0x41, 0), BindAction::Ignore);
    assert_eq!(bind_key_action(0x41, 2), BindAction::Accept { mods: 2, vkey: 0x41 });
    assert_eq!(key_code(0x1_0041), 0x41);
}

#[test]
fn bind_dialog_geometry() {
    assert_eq!(bind_dialog_origin(1920, 1080), Point { x: 750, y: 420 });
    assert_eq!(bind_dialog_origin(400, 200), Point { x: -10, y: -20 });
    assert_eq!(bind_dialog_origin(419, 239), Point { x: 0, y: 0 });
    let rc = Rect { left: 0, top: 0, right: 420, bottom: 240 };
    assert_eq!(text_row_rect(rc, 18, 40), Rect { left: 18, top: 40, right: 402, bottom: 62 });
}
