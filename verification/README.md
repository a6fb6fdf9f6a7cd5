# Oxide

A CHIP-8 emulator front end whose core logic is verified with Verus.

- `src/` — the verified library: the 64x32 framebuffer, the settings window
  as a state machine (live, temporary and snapshot values), key and shortcut
  label parsing, key binding, save-state bookkeeping (ROM hash, file names,
  slot selection), the debug terminal log, its search and colouring, the
  diagnostics report and the developer message catalog.
- `tests/` — tests of the library on concrete values.
- `app/` — the desktop window (eframe), file and log I/O, save-state
  serialisation, the audio buzzer and the file dialogs.
