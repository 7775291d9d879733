//! The global "new loupe" hotkey: Win32 modifier flags, the way a binding
//! travels between the bind dialog and the main window, its label, and the
//! bind dialog's decision on each key press.
use vstd::prelude::*;
use vstd::string::StringExecFns;

use crate::geometry::{half_toward_zero, Point, Rect};
use crate::text::{hex_literal, push_hex_literal};

verus! {

/// `MOD_ALT` from winuser.h.
pub const MOD_ALT: u32 = 0x0001;

/// `MOD_CONTROL` from winuser.h.
pub const MOD_CONTROL: u32 = 0x0002;

/// `MOD_SHIFT` from winuser.h.
pub const MOD_SHIFT: u32 = 0x0004;

/// `MOD_NOREPEAT` from winuser.h: keep auto-repeat from firing the hotkey.
pub const MOD_NOREPEAT: u32 = 0x4000;

/// Hotkey id used in `WM_HOTKEY` messages.
pub const HOTKEY_ID_NEW_LENS: i32 = 1;

/// `VK_ESCAPE`.
pub const VK_ESCAPE: u16 = 0x1B;

/// `WM_APP` from winuser.h: the first message number free for applications.
pub const WM_APP: u32 = 0x8000;

/// Posted to the main window when the user completes or cancels a bind.
///
/// `wparam == 1`: accepted; `lparam` carries the packed combo.
/// `wparam == 0`: Escape pressed; `lparam` is 0.
pub const WM_APP_HOTKEY_BOUND: u32 = WM_APP + 3;

/// The modifier flags handed to `RegisterHotKey` for a binding: the user's
/// modifiers plus `MOD_NOREPEAT`.
pub fn register_modifiers(mods: u32) -> (r: u32)
    ensures
        r == mods | MOD_NOREPEAT,
{
    mods | MOD_NOREPEAT
}

/// The `LPARAM` value that `pack` produces.
pub open spec fn packed(mods: u32, vkey: u32) -> isize {
    (((mods as usize) << 16usize) | ((vkey as usize) & 0xFFFFusize)) as isize
}

/// The pair that `unpack` reads from an `LPARAM` value.
pub open spec fn unpacked(lp: isize) -> (u32, u32) {
    ((lp as u32) >> 16u32, (lp as u32) & 0xFFFFu32)
}

/// Pack `(modifiers, vkey)` into an `LPARAM` value: the modifiers in bits
/// 16 and up, the low 16 bits of the key code below them.
pub fn pack(mods: u32, vkey: u32) -> (r: isize)
    ensures
        r == packed(mods, vkey),
        r as u32 == (mods % 0x10000) * 0x10000 + vkey % 0x10000,
{
    let r = (((mods as usize) << 16) | (vkey as usize & 0xFFFF)) as isize;
    proof {
        lemma_packed_low_word(mods, vkey);
    }
    r
}

/// Unpack an `LPARAM` value produced by `pack`.
pub fn unpack(lp: isize) -> (r: (u32, u32))
    ensures
        r == unpacked(lp),
        r.0 == (lp as u32) / 0x10000,
        r.1 == (lp as u32) % 0x10000,
{
    let v = lp as u32;
    assert(v >> 16u32 == v / 0x10000 && v & 0xFFFFu32 == v % 0x10000) by (bit_vector);
    (v >> 16, v & 0xFFFF)
}

proof fn lemma_packed_low_word(mods: u32, vkey: u32)
    ensures
        packed(mods, vkey) as u32 == (mods % 0x10000) * 0x10000 + vkey % 0x10000,
{
    let r = packed(mods, vkey);
    assert(((((mods as usize) << 16usize) | ((vkey as usize) & 0xFFFFusize)) as isize) as u32
        == (mods % 0x10000) * 0x10000 + vkey % 0x10000) by (bit_vector);
}

/// What `unpack` reads back from `pack(mods, vkey)` is the low 16 bits of each;
/// every modifier combination and virtual-key code (both below 0x10000) comes
/// back unchanged.
pub proof fn lemma_unpack_pack(mods: u32, vkey: u32)
    ensures
        unpacked(packed(mods, vkey)) == (mods % 0x10000, vkey % 0x10000),
        mods < 0x10000 && vkey < 0x10000 ==> unpacked(packed(mods, vkey)) == (mods, vkey),
{
    lemma_packed_low_word(mods, vkey);
    let v = packed(mods, vkey) as u32;
    assert(v >> 16u32 == v / 0x10000 && v & 0xFFFFu32 == v % 0x10000) by (bit_vector);
}

/// The key code carried in a `WM_KEYDOWN` `WPARAM`.
pub fn key_code(wparam: usize) -> (r: u16)
    ensures
        r == wparam % 0x10000,
{
    assert((wparam & 0xFFFFusize) as u16 == wparam % 0x10000) by (bit_vector);
    (wparam & 0xFFFF) as u16
}

/// The virtual-key codes of the modifier keys (Shift, Ctrl, Alt, and their
/// left/right variants, and both Windows keys).
pub open spec fn is_modifier_key(vk: u16) -> bool {
    vk == 0x10 || vk == 0x11 || vk == 0x12 || vk == 0xA0 || vk == 0xA1 || vk == 0xA2 || vk == 0xA3
        || vk == 0xA4 || vk == 0xA5 || vk == 0x5B || vk == 0x5C
}

/// Whether `vk` is a modifier key.
pub fn is_modifier(vk: u16) -> (r: bool)
    ensures
        r == is_modifier_key(vk),
{
    matches!(vk, 0x10 | 0x11 | 0x12 | 0xA0 | 0xA1 | 0xA2 | 0xA3 | 0xA4 | 0xA5 | 0x5B | 0x5C)
}

/// The modifier flags for the keys held down, given the `GetKeyState`
/// results for Ctrl, Alt and Shift (a key is down when the high bit is set).
pub fn modifiers_from_key_states(ctrl: i16, alt: i16, shift: i16) -> (r: u32)
    ensures
        r == (if ctrl < 0 {
            MOD_CONTROL
        } else {
            0
        }) + (if alt < 0 {
            MOD_ALT
        } else {
            0
        }) + (if shift < 0 {
            MOD_SHIFT
        } else {
            0
        }),
{
    assert(((ctrl as u16) & 0x8000u16 != 0) == (ctrl < 0)) by (bit_vector);
    assert(((alt as u16) & 0x8000u16 != 0) == (alt < 0)) by (bit_vector);
    assert(((shift as u16) & 0x8000u16 != 0) == (shift < 0)) by (bit_vector);
    let c: u32 = if (ctrl as u16 & 0x8000) != 0 {
        MOD_CONTROL
    } else {
        0
    };
    let a: u32 = if (alt as u16 & 0x8000) != 0 {
        MOD_ALT
    } else {
        0
    };
    let sh: u32 = if (shift as u16 & 0x8000) != 0 {
        MOD_SHIFT
    } else {
        0
    };
    assert(c | a | sh == c + a + sh) by (bit_vector)
        requires
            c == 0 || c == 2,
            a == 0 || a == 1,
            sh == 0 || sh == 4,
    ;
    c | a | sh
}

/// The bind dialog's answer to a key press.
#[derive(Clone, Copy, Debug, PartialEq, Eq, Structural)]
pub enum BindAction {
    /// Escape: close the dialog and report a cancelled bind.
    Cancel,
    /// A modifier on its own, or a key with no modifier held: keep waiting.
    Ignore,
    /// A complete combination: close the dialog and report it.
    Accept { mods: u32, vkey: u32 },
}

/// What the bind dialog does when key `vk` goes down while the modifiers
/// `mods` are held.
pub open spec fn bind_action(vk: u16, mods: u32) -> BindAction {
    if vk == VK_ESCAPE {
        BindAction::Cancel
    } else if is_modifier_key(vk) || mods == 0 {
        BindAction::Ignore
    } else {
        BindAction::Accept { mods, vkey: vk as u32 }
    }
}

/// Decide the bind dialog's response to a key press.
pub fn bind_key_action(vk: u16, mods: u32) -> (r: BindAction)
    ensures
        r == bind_action(vk, mods),
{
    if vk == VK_ESCAPE {
        return BindAction::Cancel;
    }
    if is_modifier(vk) {
        return BindAction::Ignore;
    }
    if mods == 0 {
        return BindAction::Ignore;
    }
    BindAction::Accept { mods, vkey: vk as u32 }
}

/// The `Ctrl+`, `Alt+`, `Shift+` prefix of a binding's label.
pub open spec fn modifier_prefix(mods: u32) -> Seq<char> {
    (if mods & MOD_CONTROL != 0 {
        "Ctrl+"@
    } else {
        Seq::empty()
    }) + (if mods & MOD_ALT != 0 {
        "Alt+"@
    } else {
        Seq::empty()
    }) + (if mods & MOD_SHIFT != 0 {
        "Shift+"@
    } else {
        Seq::empty()
    })
}

/// A binding's label: the modifier prefix, then the key's name, or `VK`
/// followed by the code in hex (`VK0x41`) when the keyboard layout has no
/// name for it.
pub open spec fn binding_label(mods: u32, vkey: u32, key_name: Option<Seq<char>>) -> Seq<char> {
    modifier_prefix(mods) + match key_name {
        Some(name) => name,
        None => "VK"@ + hex_literal(vkey as nat),
    }
}

/// Build a human-readable string like "Ctrl+Alt+F1" from a binding.
/// `key_name` is the layout's name for the key (`GetKeyNameTextW`), if it
/// has one.
pub fn format_binding(mods: u32, vkey: u32, key_name: Option<&str>) -> (r: String)
    ensures
        r@ == binding_label(
            mods,
            vkey,
            match key_name {
                Some(n) => Some(n@),
                None => None,
            },
        ),
{
    let mut s = String::new();
    if mods & MOD_CONTROL != 0 {
        s.append("Ctrl+");
    }
    if mods & MOD_ALT != 0 {
        s.append("Alt+");
    }
    if mods & MOD_SHIFT != 0 {
        s.append("Shift+");
    }
    assert(s@ =~= modifier_prefix(mods));
    let ghost prefix = s@;
    match key_name {
        Some(name) => {
            s.append(name);
        },
        None => {
            s.append("VK");
            push_hex_literal(&mut s, vkey);
            assert(s@ =~= prefix + ("VK"@ + hex_literal(vkey as nat)));
        },
    }
    s
}

/// A key press that is neither Escape nor a modifier key binds exactly the
/// modifiers held and that key as soon as any modifier is held (any mix of
/// Ctrl, Alt and Shift), and keeps the dialog waiting when none is. Escape
/// always cancels, and a modifier key on its own never binds.
pub proof fn lemma_bind_accepts_held_modifiers(vk: u16, mods: u32)
    ensures
        vk != VK_ESCAPE && !is_modifier_key(vk) && mods != 0 ==> bind_action(vk, mods)
            == (BindAction::Accept { mods, vkey: vk as u32 }),
        vk != VK_ESCAPE && mods == 0 ==> bind_action(vk, mods) == BindAction::Ignore,
        vk == VK_ESCAPE ==> bind_action(vk, mods) == BindAction::Cancel,
        is_modifier_key(vk) ==> bind_action(vk, mods) == BindAction::Ignore,
{
}

/// Whether `w` occurs in `s` as a run of consecutive characters.
pub open spec fn has_word(s: Seq<char>, w: Seq<char>) -> bool {
    exists|i: int| 0 <= i && i + w.len() <= s.len() && #[trigger] s.subrange(i, i + w.len()) == w
}

proof fn lemma_no_word(s: Seq<char>, w: Seq<char>)
    requires
        w.len() > 0,
        forall|j: int| 0 <= j < s.len() ==> s[j] != w[0],
    ensures
        !has_word(s, w),
{
    assert forall|i: int| 0 <= i && i + w.len() <= s.len() implies #[trigger] s.subrange(
        i,
        i + w.len(),
    ) != w by {
        assert(s.subrange(i, i + w.len())[0] == s[i]);
    }
}

proof fn lemma_word_at(s: Seq<char>, w: Seq<char>, i: int)
    requires
        0 <= i && i + w.len() <= s.len(),
        s.subrange(i, i + w.len()) =~= w,
    ensures
        has_word(s, w),
{
}

/// Each modifier is named in a binding's label exactly when its own flag
/// is set, whatever the other flags: `Ctrl+` for `MOD_CONTROL`, `Alt+` for
/// `MOD_ALT`, `Shift+` for `MOD_SHIFT`.
pub proof fn lemma_prefix_names_each_modifier(mods: u32)
    ensures
        has_word(modifier_prefix(mods), "Ctrl+"@) <==> mods & MOD_CONTROL != 0,
        has_word(modifier_prefix(mods), "Alt+"@) <==> mods & MOD_ALT != 0,
        has_word(modifier_prefix(mods), "Shift+"@) <==> mods & MOD_SHIFT != 0,
{
    reveal_strlit("Ctrl+");
    reveal_strlit("Alt+");
    reveal_strlit("Shift+");
    let c = if mods & MOD_CONTROL != 0 {
        "Ctrl+"@
    } else {
        Seq::<char>::empty()
    };
    let a = if mods & MOD_ALT != 0 {
        "Alt+"@
    } else {
        Seq::<char>::empty()
    };
    let sh = if mods & MOD_SHIFT != 0 {
        "Shift+"@
    } else {
        Seq::<char>::empty()
    };
    let p = modifier_prefix(mods);
    assert(p == c + a + sh);
    assert(forall|j: int| 0 <= j < c.len() ==> c[j] != 'A' && c[j] != 'S');
    assert(forall|j: int| 0 <= j < a.len() ==> a[j] != 'C' && a[j] != 'S');
    assert(forall|j: int| 0 <= j < sh.len() ==> sh[j] != 'C' && sh[j] != 'A');
    assert(forall|j: int|
        0 <= j < p.len() ==> (p[j] == 'C' ==> mods & MOD_CONTROL != 0) && (p[j] == 'A' ==> mods
            & MOD_ALT != 0) && (p[j] == 'S' ==> mods & MOD_SHIFT != 0)) by {
        assert forall|j: int| 0 <= j < p.len() implies (p[j] == 'C' ==> mods & MOD_CONTROL != 0)
            && (p[j] == 'A' ==> mods & MOD_ALT != 0) && (p[j] == 'S' ==> mods & MOD_SHIFT
            != 0) by {
            if j < c.len() {
                assert(p[j] == c[j]);
            } else if j < c.len() + a.len() {
                assert(p[j] == a[j - c.len()]);
            } else {
                assert(p[j] == sh[j - c.len() - a.len()]);
            }
        }
    }
    if mods & MOD_CONTROL != 0 {
        lemma_word_at(p, "Ctrl+"@, 0);
    } else {
        lemma_no_word(p, "Ctrl+"@);
    }
    if mods & MOD_ALT != 0 {
        lemma_word_at(p, "Alt+"@, c.len() as int);
    } else {
        lemma_no_word(p, "Alt+"@);
    }
    if mods & MOD_SHIFT != 0 {
        lemma_word_at(p, "Shift+"@, (c.len() + a.len()) as int);
    } else {
        lemma_no_word(p, "Shift+"@);
    }
}

/// A binding's label begins with its modifier prefix and ends with the
/// key's name when the layout has one.
pub proof fn lemma_label_is_prefix_then_name(mods: u32, vkey: u32, name: Seq<char>)
    ensures
        binding_label(mods, vkey, Some(name)) == modifier_prefix(mods) + name,
        modifier_prefix(MOD_ALT) == "Alt+"@,
        modifier_prefix(MOD_CONTROL) == "Ctrl+"@,
        modifier_prefix(MOD_SHIFT) == "Shift+"@,
{
    assert(MOD_ALT & MOD_CONTROL == 0 && MOD_ALT & MOD_ALT != 0 && MOD_ALT & MOD_SHIFT == 0)
        by (bit_vector);
    assert(MOD_CONTROL & MOD_CONTROL != 0 && MOD_CONTROL & MOD_ALT == 0 && MOD_CONTROL
        & MOD_SHIFT == 0) by (bit_vector);
    assert(MOD_SHIFT & MOD_CONTROL == 0 && MOD_SHIFT & MOD_ALT == 0 && MOD_SHIFT & MOD_SHIFT
        != 0) by (bit_vector);
    assert(modifier_prefix(MOD_ALT) =~= "Alt+"@);
    assert(modifier_prefix(MOD_CONTROL) =~= "Ctrl+"@);
    assert(modifier_prefix(MOD_SHIFT) =~= "Shift+"@);
}

/// Width of the bind dialog.
pub const BIND_W: i32 = 420;

/// Height of the bind dialog.
pub const BIND_H: i32 = 240;

/// Height of one text row in the bind dialog.
pub const BIND_ROW_H: i32 = 22;

/// Top-left corner that centres the bind dialog on a `sw × sh` screen.
pub fn bind_dialog_origin(sw: i32, sh: i32) -> (r: Point)
    requires
        sw - BIND_W >= i32::MIN,
        sh - BIND_H >= i32::MIN,
    ensures
        r.x == half_toward_zero(sw - BIND_W),
        r.y == half_toward_zero(sh - BIND_H),
{
    Point { x: (sw - BIND_W) / 2, y: (sh - BIND_H) / 2 }
}

/// The rectangle one text row of the bind dialog is drawn in: indented by
/// `pad_left` on both sides of `window_rc`, starting `y` below its top.
pub fn text_row_rect(window_rc: Rect, pad_left: i32, y: i32) -> (r: Rect)
    requires
        i32::MIN <= window_rc.left + pad_left <= i32::MAX,
        i32::MIN <= window_rc.right - pad_left <= i32::MAX,
        i32::MIN <= window_rc.top + y <= i32::MAX,
        i32::MIN <= window_rc.top + y + BIND_ROW_H <= i32::MAX,
    ensures
        r == (Rect {
            left: (window_rc.left + pad_left) as i32,
            top: (window_rc.top + y) as i32,
            right: (window_rc.right - pad_left) as i32,
            bottom: (window_rc.top + y + BIND_ROW_H) as i32,
        }),
{
    Rect {
        left: window_rc.left + pad_left,
        top: window_rc.top + y,
        right: window_rc.right - pad_left,
        bottom: window_rc.top + y + BIND_ROW_H,
    }
}

} // verus!
