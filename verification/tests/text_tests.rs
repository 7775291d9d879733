use loupe::text::wstr;
use loupe::wstr as root_wstr;

#[test]
fn wide_strings() {
    assert_eq!(wstr(""), vec![0u16]);
    assert_eq!(wstr("ab"), vec![97u16, 98, 0]);
    assert_eq!(wstr("\u{2014}"), vec![0x2014u16, 0]);
    assert_eq!(wstr("\u{1F600}"), vec![0xD83Du16, 0xDE00, 0]);
    let s = "Loupe \u{2014} Bind hotkey \u{10FFFF}";
    let mut expected: Vec<u16> = s.encode_utf16().collect();
    expected.push(0);
    assert_eq!(wstr(s), expected);
    assert_eq!(root_wstr("x"), vec![120u16, 0]);
}

#[test]
fn only_terminator_is_zero() {
    let w = wstr("loupe.main");
    assert_eq!(w.iter().filter(|&&u| u == 0).count(), 1);
    assert_eq!(*w.last().unwrap(), 0);
}
