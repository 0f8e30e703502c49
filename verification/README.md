# windowed

A minimal cross-platform windowing library (X11, Win32, Cocoa), written in
Verus.

- `src/` is the verified library: the window configuration and its
  builders, the event model, the key maps of the three platforms, the
  translation of native events (X11 `XEvent`s, Win32 window messages, Cocoa
  `NSEvent`s) into `Event`s, the window-creation plans, the state machines
  that the event loops drive (what a `ControlFlow` answer does, when to
  redraw, the client-area size), UTF-16 encoding for Win32 and the raw
  window handles.  Each function carries its contract; the `lemma_*` proof
  functions state the properties that hold across calls.
- `app/` holds what talks to the operating system: the FFI declarations,
  the platform windows, the event loops and `Window`.  It takes its
  decisions through the library, except those that rest on floating point
  (the Cocoa scroll delta and cursor warp), on the C-string check of
  `get_proc_address`, and the `ShowCursor` counting loop.
- `tests/` exercises the library on concrete values.
