# nih_plug_druid

Druid editor support for NIH-plug plugins, with its decision logic verified
by Verus.

- `src/` — the verified library:
  - `gesture`: what the resizable-scale wrapper does with each input event
    (drag of the resize handle, forwarding to the wrapped widget);
  - `scale`: negotiating a user scale change with the host and taking it
    back when the host refuses;
  - `lifecycle`: opening at most one editor window, closing handles,
    accepting the host's scale factor, retrying to attach an AppKit window;
  - `window_match`: finding the editor's native window (AppKit class names,
    X11 class hints, new X11 top-level windows);
  - `win32_style`: the style bits of an embedded Win32 child window.
- `app/` — the Druid widget, the NIH-plug editor, the shared atomic state and
  the native window calls, which use the library for their decisions.
- `tests/` — tests of the library.
