# Loupe

Loupe is a small live screen-region magnifier for Windows: pick a region of
the desktop and a window shows it enlarged, either through the classic
`WC_MAGNIFIER` control or through screen capture and a Lanczos upscale on the
GPU.

## Layout

- `src/` — the library, verified with Verus: the configuration file format
  and its parser, hotkey encoding and labels, the region-selection state
  machine, the draggable source frame, renderer selection, the integer part
  of the capture geometry, the tray menu text and the main window's
  fullscreen and hotkey state. Each public function carries a contract, and
  the laws that tie functions together (for instance that a saved hotkey
  reads back unchanged) are proof functions.
- `tests/` — ordinary Rust tests of the library on concrete values.
- `app/` — the Win32 program around the library: window procedures, the
  message loop, file I/O for the configuration, Direct3D and the
  Magnification API. It hands plain values to the library and acts on what
  comes back.
