use loupe::config::{format_hotkey_config, parse_hotkey_config, HotkeyConfig};

#[test]
fn parses_saved_file() {
    let text = "# Loupe configuration \u{2014} edit with any text editor.\n\
                # Delete this file to reset all settings.\n\
                \n\
                hotkey_mods = 3\n\
                hotkey_vkey = 65\n";
    assert_eq!(parse_hotkey_config(text), Some(HotkeyConfig { mods: 3, vkey: 65 }));
}

#[test]
fn parses_crlf_spacing_and_comments() {
    let text = "# c\r\n   \r\nhotkey_mods=6\r\n  hotkey_vkey =  112  \r\n";
    assert_eq!(parse_hotkey_config(text), Some(HotkeyConfig { mods: 6, vkey: 112 }));
}

#[test]
fn unicode_whitespace_is_trimmed() {
    let text = "\u{3000}hotkey_mods = 2\u{a0}\nhotkey_vkey=\u{2003}7";
    assert_eq!(parse_hotkey_config(text), Some(HotkeyConfig { mods: 2, vkey: 7 }));
}

#[test]
fn missing_setting_gives_none() {
    assert_eq!(parse_hotkey_config("hotkey_mods = 3\n"), None);
    assert_eq!(parse_hotkey_config("hotkey_vkey = 3"), None);
    assert_eq!(parse_hotkey_config(""), None);
}

#[test]
fn last_line_for_a_key_wins() {
    let text = "hotkey_mods = 1\nhotkey_mods = 2\nhotkey_vkey = 3";
    assert_eq!(parse_hotkey_config(text), Some(HotkeyConfig { mods: 2, vkey: 3 }));
    let text = "hotkey_mods = 1\nhotkey_mods = x\nhotkey_vkey = 3";
    assert_eq!(parse_hotkey_config(text), None);
}

#[test]
fn values_follow_u32_parsing() {
    assert_eq!(
        parse_hotkey_config("hotkey_mods = +5\nhotkey_vkey = 4294967295"),
        Some(HotkeyConfig { mods: 5, vkey: 4294967295 })
    );
    assert_eq!(parse_hotkey_config("hotkey_mods = 4294967296\nhotkey_vkey = 1"), None);
    assert_eq!(parse_hotkey_config("hotkey_mods = -1\nhotkey_vkey = 1"), None);
    assert_eq!(parse_hotkey_config("hotkey_mods = +\nhotkey_vkey = 1"), None);
    assert_eq!(parse_hotkey_config("hotkey_mods = 1 2\nhotkey_vkey = 1"), None);
    assert_eq!(parse_hotkey_config("hotkey_mods = 007\nhotkey_vkey = 1"), Some(HotkeyConfig { mods: 7, vkey: 1 }));
}

#[test]
fn longer_key_is_not_the_setting() {
    assert_eq!(parse_hotkey_config("hotkey_mods_extra = 5\nhotkey_vkey = 1"), None);
    assert_eq!(
        parse_hotkey_config("hotkey_mods = 5\nhotkey_vkey = 1\nother = 9\n#hotkey_mods = 8"),
        Some(HotkeyConfig { mods: 5, vkey: 1 })
    );
}

#[test]
fn formats_file_text() {
    assert_eq!(
        format_hotkey_config(3, 65),
        "# Loupe configuration \u{2014} edit with any text editor.\n\
         # Delete this file to reset all settings.\n\
         \n\
         hotkey_mods = 3\n\
         hotkey_vkey = 65\n"
    );
}

#[test]
fn saved_binding_reads_back() {
    for &(m, v) in &[(0u32, 0u32), (2, 0x70), (7, 0x41), (u32::MAX, 1234567), (0x4002, u32::MAX)] {
        let text = format_hotkey_config(m, v);
        assert_eq!(parse_hotkey_config(&text), Some(HotkeyConfig { mods: m, vkey: v }));
    }
}
