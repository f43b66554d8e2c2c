# keyflag

KeyFlag keeps a Windows session on a single keyboard layout (United States-International or
Portuguese ABNT2), snapping the foreground window back whenever it drifts, from a tray icon.

The crate is split in two:

- `src/` — the verified library. Every decision, rule, text, encoding and layout computation of
  the program, with Verus contracts:
  - `mode` — the two modes, their keyboard layout identifiers, and how the chosen mode is
    stored in and read back from the registry (with the round-trip law).
  - `wide` — UTF-16 encoding, NUL handling, little-endian `REG_SZ` bytes, the tooltip field.
  - `layout` — which layouts to unload, the preload list collapsed to one entry (every other
    numbered value present is deleted), the snap-back check as a step function, and the
    enforcer's state when a mode is applied.
  - `tray`, `menu` — tray badge, tooltip, icon replacement without leaks, the context menu and
    its commands, dispatch of the hidden window's messages.
  - `geometry`, `paint` — hit tests, the borderless windows' layouts, button and close-button
    painting, centring, the drawn icon's bitmap.
  - `window` — the About window and the modal dialog as state machines, raising the menu owner.
  - `text`, `update` — the JSON scan of a release description, version parsing and comparison,
    the update decision and its dialog texts, and the update sequence as a step function
    (download, report, ask, download the installer, install and quit).
- `app/` — the Win32 program: message loop, registry, GDI, tray, downloads. It performs the
  actions the library's step functions choose (snap-back, update sequence, menu owner) and
  reports their outcomes back; layouts, texts and encodings come from the library too.
