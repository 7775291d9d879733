use loupe::text::wstr;
use loupe::tray::{check_flags, new_lens_label, tip_units, MF_CHECKED, MF_STRING, TRAY_TIP};

#[test]
fn new_lens_labels() {
    assert_eq!(new_lens_label(Some("Ctrl+Alt+F1")), "New loupe  [Ctrl+Alt+F1]");
    assert_eq!(new_lens_label(None), "New loupe");
}

#[test]
fn check_marks() {
    assert_eq!(check_flags(true), MF_STRING | MF_CHECKED);
    assert_eq!(check_flags(false), MF_STRING);
}

#[test]
fn tooltip_units() {
    assert_eq!(tip_units(128), wstr(TRAY_TIP));
    assert_eq!(tip_units(5), "Loupe".encode_utf16().collect::<Vec<u16>>());
    assert_eq!(tip_units(0), Vec::<u16>::new());
}
