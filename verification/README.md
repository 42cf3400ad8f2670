# stremio_border_breaker

Verified core of a Windows desktop shell for Stremio, written in Verus.

- `src/` — the verified library:
  - `aspect` — aspect-ratio modes, their player properties and the cycling controller;
  - `geometry` — rectangles and `LPARAM` point/size packing;
  - `pip_layout` — picture-in-picture overlay layout, control and resize hit testing, window-region pills;
  - `pip_overlay` — overlay click/move/release handling, hover show/hide timing, transparency, glyphs and colours;
  - `player` — observed player properties and routing of property-change events;
  - `window_style` — main-window state flags, centring, full-screen and always-on-top toggling, saved geometry;
  - `presence` — the Discord Rich Presence session;
  - `win32` — window-style bits, colour packing, UTF-16 strings;
  - `clock` — wall-clock milliseconds.
- `app/` — Win32, GDI+, file, channel and Discord IPC glue that performs what the library decides.
- `tests/` — tests of the library on concrete values.
