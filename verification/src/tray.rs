//! Notification-area icon and its menu: message and command ids, the menu
//! labels and check marks, and the icon's tooltip.
use vstd::prelude::*;
use vstd::string::StringExecFns;

use crate::hotkey::WM_APP;
use crate::text::{utf16_encode, wstr};

verus! {

/// Application-defined message Windows posts back to us for tray events.
pub const WM_APP_TRAY: u32 = WM_APP + 1;

/// Identifier of our single tray icon.
pub const TRAY_UID: u32 = 1;

/// Menu command ids returned by `TrackPopupMenu` via `WM_COMMAND`.
pub const IDM_NEW_LENS: u32 = 100;

pub const IDM_QUIT: u32 = 101;

pub const IDM_BIND_HOTKEY: u32 = 102;

pub const IDM_TOGGLE_SOURCE_FRAME: u32 = 103;

pub const IDM_RENDERER_CLASSIC: u32 = 200;

pub const IDM_RENDERER_GPU: u32 = 201;

/// `MF_STRING` from winuser.h.
pub const MF_STRING: u32 = 0x0000;

/// `MF_CHECKED` from winuser.h.
pub const MF_CHECKED: u32 = 0x0008;

/// The tooltip shown over the tray icon.
pub const TRAY_TIP: &'static str = "Loupe \u{2014} click: new region; right-click: menu";

/// The label of the "New loupe" item: the bound shortcut, if any, is shown
/// in brackets after it.
pub open spec fn new_lens_text(hotkey_label: Option<Seq<char>>) -> Seq<char> {
    match hotkey_label {
        Some(k) => "New loupe  ["@ + k + "]"@,
        None => "New loupe"@,
    }
}

/// Build the label of the "New loupe" menu item.
pub fn new_lens_label(hotkey_label: Option<&str>) -> (r: String)
    ensures
        r@ == new_lens_text(
            match hotkey_label {
                Some(k) => Some(k@),
                None => None,
            },
        ),
{
    match hotkey_label {
        Some(k) => {
            let mut s = String::from_str("New loupe  [");
            s.append(k);
            s.append("]");
            s
        },
        None => String::from_str("New loupe"),
    }
}

/// Menu flags for an item that shows a check mark when `checked`.
pub fn check_flags(checked: bool) -> (r: u32)
    ensures
        r == (if checked {
            MF_STRING | MF_CHECKED
        } else {
            MF_STRING
        }),
{
    if checked {
        MF_STRING | MF_CHECKED
    } else {
        MF_STRING
    }
}

/// The tooltip as it is copied into the icon's fixed `capacity`-unit buffer:
/// the NUL-terminated UTF-16 text, cut at the buffer's size.
pub fn tip_units(capacity: usize) -> (r: Vec<u16>)
    ensures
        r@ == (if utf16_encode(TRAY_TIP@).push(0u16).len() <= capacity {
            utf16_encode(TRAY_TIP@).push(0u16)
        } else {
            utf16_encode(TRAY_TIP@).push(0u16).take(capacity as int)
        }),
{
    let tip = wstr(TRAY_TIP);
    let n = if tip.len() <= capacity {
        tip.len()
    } else {
        capacity
    };
    let mut out: Vec<u16> = Vec::new();
    let mut i: usize = 0;
    while i < n
        invariant
            0 <= i <= n <= tip.len(),
            out@ == tip@.take(i as int),
        decreases n - i,
    {
        out.push(tip[i]);
        assert(out@ =~= tip@.take(i + 1));
        i = i + 1;
    }
    assert(tip@.take(tip.len() as int) =~= tip@);
    out
}

} // verus!
