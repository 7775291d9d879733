//! Loupe: the decision logic of a small live screen-region magnifier for
//! Windows — configuration text, hotkey encoding and labels, region
//! selection, the on-desktop source frame, renderer selection and the main
//! window's state machine. The Win32 plumbing that drives it lives in `app/`.
pub mod text;

pub mod config;
pub mod hotkey;
pub mod geometry;
pub mod region;
pub mod source_frame;
pub mod magnifier;
pub mod tray;
pub mod window;

pub use text::wstr;
