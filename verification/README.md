# azusa_proxy_ui

The logic of the control panel of a local reverse proxy: what its windows show,
where everything stands, what a message means and what the tray icon does.

- `src/` is the library. Everything in it is stated in contracts and proved with
  Verus: layouts at every DPI, the curve, the texts, the form of the settings, the
  view of the log, the drawing steps and the state of the session.
- `app/` carries it out on Windows: windows, GDI and GDI+, clipboard, tray icon and
  the upstream probe. The proxy service itself is behind the `Backend` trait.
- `tests/` runs the library on concrete values.

Lengths are in DIPs and are scaled by the DPI of the window; coordinates are pixels.
Texts are measured by the host and handed in as widths or as a measuring function.
