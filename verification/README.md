# tinytask

The verified core of a kernel-level macro recorder and player for Linux
(PressPlay / Linux TinyTask). Recording reads `/dev/input`, playback writes a
`/dev/uinput` virtual device; both are driven by logic that Verus proves.

Layout:

- `src/` — the library, verified with Verus:
  - `text.rs` — string helpers (equality, search, prefixes, decimal digits).
  - `i18n.rs` — UI languages and the string table with its fallback.
  - `models.rs` — recorded events, recordings, the versioned file record,
    macro paths and formats, hotkey combos and configuration, the recent-files
    list, the record filter.
  - `player.rs` — held-key tracking and release, interruptible waiting, the
    player's command protocol and the playback state machine.
  - `recorder.rs` — device selection and the capture session.
  - `control.rs` — hotkey listener decisions, command routing, the
    recording-to-player hand-over, and the control and settings screens.
- `app/` — the program: threads, channels, devices, files, JSON/bincode,
  and the egui window, calling the library for every decision.
- `tests/` — tests of the library.
