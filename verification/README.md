# Cococa Clip

A clipboard history for the macOS menu bar: it watches the pasteboard,
keeps what was copied in SQLite, and pastes an entry back on request from a
panel opened with a global hot key or from the tray icon.

- `src/` is the library, each function proved against its contract: text helpers, the capture and
  preview rules of the history, the login item property list, hot key and
  tray event decisions, the tray icon pixels, PNG encoding of icons, and the
  state of the hot key editors of the settings pages.
- `tests/` runs the library on concrete values.
- `app/` is the macOS program around it: Cocoa windows, the pasteboard,
  SQLite, the tray and the global hot key. Outside macOS it only reports
  that it needs macOS.
