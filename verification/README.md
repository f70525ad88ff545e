# autoclicker

A humanized auto-clicker for Linux desktops, with its decision logic verified
in Verus.

- `src/` is the verified library: profile configuration (`config`), the
  click engine's state machine (`engine`: device lists, trigger handling,
  click plans and waits), profile file naming (`profiles`), the interface's
  state machine (`ui`) and the text operations they share (`text`).
- `app/` is the GNOME application around it: the GTK/Libadwaita window,
  the engine thread that opens input devices and emits clicks, and profile
  files on disk.
- `tests/` exercises the library on concrete values.
