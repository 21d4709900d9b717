# Sabitori

A Windows tray application that filters mouse-wheel bounce: in
direction-lock mode, an isolated wheel tick against the current scroll
direction is swallowed, while a sustained reversal (two consecutive ticks)
or a reversal after an idle pause goes through. Scroll lock swallows the
wheel entirely; pass-through leaves it alone.

## Layout

- `src/` — the verified library (Verus):
  - `dir_lock` — the direction-lock state machine and its laws;
  - `hook` — the decision the low-level mouse hook takes for every event,
    the lock-free state shared with the settings window, the hook-thread
    slot, wheel-delta extraction;
  - `config` — the settings, their clamping, loading and the temp-file name
    used for atomic saves;
  - `settings` — the settings window's editing model (direct entry,
    keyboard nudging, focus cycling, mode toggles);
  - `tray` — the decisions of the tray poll loop (tooltip refresh, hook
    respawn, flyout dismissal and toggling, quit);
  - `autostart`, `theme`, `icons`, `flyout`, `log`, `wide`, `text` — the
    registry values, colours, asset paths, window geometry, log lines and
    string encodings the platform glue needs.
- `app/` — the Windows program around the library: Win32 calls, the GPUI
  settings window, the tray icon and the poll loop that performs the
  `tray` decisions, file I/O and JSON (serde).
- `tests/` — tests of the library.
