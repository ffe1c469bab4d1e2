# adguard-home-toggle

Turns AdGuard Home protection on, off, or off for a while, from the command
line or from a system-tray icon.

- `src/` is the verified library (Verus): the duration syntax (`duration.rs`,
  on the text helpers of `text.rs`), the control API requests and answers
  (`api.rs`), the settings path (`config.rs`), the shield icons and their
  pixel layout (`icons.rs`), the command output and on-screen display
  (`report.rs`), and the tray icon's state, menu and notifications
  (`tray.rs`).
- `app/` is the program around it: command-line parsing, HTTP, the settings
  file, GTK, D-Bus tray and notifications, and SVG rendering.
- `tests/` exercises the library on concrete values.
