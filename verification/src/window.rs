//! The main window's own state: decoding its messages, the registered
//! hotkey, and borderless fullscreen.
use vstd::prelude::*;

use crate::config::HotkeyConfig;

verus! {

/// Timer that refreshes the magnified view.
pub const REFRESH_TIMER_ID: usize = 1;

/// Refresh period in milliseconds (~60 Hz).
pub const REFRESH_TIMER_MS: u32 = 16;

/// `WS_OVERLAPPEDWINDOW`: caption, system menu, thick frame, minimize and
/// maximize boxes.
pub const WS_OVERLAPPEDWINDOW: isize = 0x00CF_0000;

/// `SWP_FRAMECHANGED | SWP_NOOWNERZORDER`, used to cover the monitor.
pub const SWP_FULLSCREEN: u32 = 0x0020 | 0x0200;

/// `SWP_FRAMECHANGED | SWP_NOOWNERZORDER | SWP_NOSIZE | SWP_NOMOVE`, used to
/// re-apply a restored style.
pub const SWP_RESTORE: u32 = 0x0020 | 0x0200 | 0x0001 | 0x0002;

/// The command id of a `WM_COMMAND` message (low word of `WPARAM`).
pub fn command_id(wparam: usize) -> (r: u32)
    ensures
        r == (wparam as u32) % 0x10000,
{
    let w = wparam as u32;
    assert(w & 0xFFFFu32 == w % 0x10000) by (bit_vector);
    w & 0xFFFF
}

/// The mouse message a tray notification reports (low word of `LPARAM`).
pub fn tray_notification(lparam: isize) -> (r: u32)
    ensures
        r == (lparam as u32) % 0x10000,
{
    let w = lparam as u32;
    assert(w & 0xFFFFu32 == w % 0x10000) by (bit_vector);
    w & 0xFFFF
}

/// Which global hotkey is registered.
#[derive(Clone, Copy, Debug, PartialEq, Eq, Structural)]
pub struct HotkeyState {
    /// Whether a global hotkey is currently registered.
    pub registered: bool,
    /// The most recently registered combination, if any.
    pub current: Option<HotkeyConfig>,
}

impl HotkeyState {
    /// At startup no hotkey is registered.
    pub fn new() -> (r: HotkeyState)
        ensures
            !r.registered,
            r.current is None,
    {
        HotkeyState { registered: false, current: None }
    }

    /// Record the outcome `ok` of registering `(mods, vkey)`. On success the
    /// combination becomes the current one; on failure nothing is registered
    /// and the previous combination is still the one shown. Returns whether
    /// the binding should be saved to the configuration file.
    pub fn record_registration(&mut self, ok: bool, mods: u32, vkey: u32) -> (save: bool)
        ensures
            final(self).registered == ok,
            final(self).current == (if ok {
                Some(HotkeyConfig { mods, vkey })
            } else {
                old(self).current
            }),
            save == ok,
    {
        self.registered = ok;
        if ok {
            self.current = Some(HotkeyConfig { mods, vkey });
        }
        ok
    }
}

/// The window style used in borderless fullscreen: `style` without the
/// frame (`WS_OVERLAPPEDWINDOW`) bits.
pub fn fullscreen_style(style: isize) -> (r: isize)
    ensures
        r == style & !WS_OVERLAPPEDWINDOW,
        r & WS_OVERLAPPEDWINDOW == 0,
        r | (style & WS_OVERLAPPEDWINDOW) == style,
{
    let r = style & !WS_OVERLAPPEDWINDOW;
    assert((style & !0x00CF_0000isize) & 0x00CF_0000isize == 0) by (bit_vector);
    assert((style & !0x00CF_0000isize) | (style & 0x00CF_0000isize) == style) by (bit_vector);
    r
}

/// Borderless fullscreen state: the window style and placement saved on
/// entering, which leaving restores.
pub struct Fullscreen<P> {
    saved: Option<(isize, P)>,
}

/// The state after entering fullscreen from a window with `style` and
/// `placement`.
pub open spec fn entered<P>(style: isize, placement: P) -> Option<(isize, P)> {
    Some((style, placement))
}

impl<P> Fullscreen<P> {
    /// What entering saved, while in fullscreen.
    pub closed spec fn saved_state(self) -> Option<(isize, P)> {
        self.saved
    }

    /// Windowed, nothing saved.
    pub fn new() -> (r: Fullscreen<P>)
        ensures
            r.saved_state() is None,
    {
        Fullscreen { saved: None }
    }

    /// True while the window is in borderless-fullscreen mode.
    pub fn is_fullscreen(&self) -> (r: bool)
        ensures
            r == self.saved_state() is Some,
    {
        self.saved.is_some()
    }

    /// Enter fullscreen from a window with `style` and `placement`: both are
    /// saved, and the style to apply is returned.
    pub fn enter(&mut self, style: isize, placement: P) -> (r: isize)
        ensures
            final(self).saved_state() == entered(style, placement),
            r == style & !WS_OVERLAPPEDWINDOW,
    {
        self.saved = Some((style, placement));
        fullscreen_style(style)
    }

    /// Leave fullscreen: returns the style and placement to restore (those
    /// saved on entering) and forgets them.
    pub fn exit(&mut self) -> (r: Option<(isize, P)>)
        ensures
            r == old(self).saved_state(),
            final(self).saved_state() is None,
    {
        self.saved.take()
    }
}

/// Leaving fullscreen gives back exactly the style and placement the window
/// had when it entered, and the window is then windowed again: `after_enter`
/// is the state `enter(style, placement)` leaves, `restored` what `exit`
/// returns from it and `after_exit` the state `exit` leaves.
pub proof fn lemma_fullscreen_round_trip<P>(
    style: isize,
    placement: P,
    after_enter: Fullscreen<P>,
    restored: Option<(isize, P)>,
    after_exit: Fullscreen<P>,
)
    requires
        after_enter.saved_state() == entered(style, placement),
        restored == after_enter.saved_state(),
        after_exit.saved_state() is None,
    ensures
        restored == Some((style, placement)),
        after_enter.saved_state() is Some,
        !(after_exit.saved_state() is Some),
{
}

} // verus!
