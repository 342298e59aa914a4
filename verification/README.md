# hush

Decision logic of a tray utility that silences notifications (Do Not
Disturb / Focus) by hand, or automatically while the user is in a call,
verified with Verus.

- `src/text.rs` — trimming, line splitting, ASCII case-insensitive
  comparison, prefix/substring tests and `u32` parsing over `Seq<char>`.
- `src/command.rs` — commands and their outcomes as plain data; reading
  command output (UTF-8 decoding is the only trusted code).
- `src/dnd/` — the Do Not Disturb backends (macOS shortcuts or the legacy
  Notification Center switch, Windows Focus Assist) as state machines:
  each operation names a command, takes back its outcome, and ends with
  an answer. Laws about complete runs are proved over the transition
  functions.
- `src/meeting.rs` — which command detects a meeting and how its output
  is read.
- `src/controller.rs` — the tray's flags: manual and automatic toggling,
  the debounced meeting poll, menu events and the menu contents.
- `app/` — the Tauri application around the library: windows, tray,
  threads, and running the commands the library names.
