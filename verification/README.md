# mouse_jiggler_neo

The logic of Mouse Jiggler Neo, a Windows tray utility that nudges the
mouse cursor so the computer does not look idle, written in Verus with
its behaviour stated in contracts and proved.

## Layout

- `src/` — the verified library
  - `ids.rs` — control ids, timer id, defaults and clamp ranges
  - `jiggle.rs` — the four modes, their movement patterns, scaled steps,
    and the smart-pause detector
  - `rng.rs` — the 64-bit LCG behind random timer variation
  - `settings.rs` — the persisted settings, sanitising, and the decisions
    behind loading (primary path, then fallback, then defaults) and saving
    (primary first, fallback when that write fails)
  - `cli.rs` — the command-line parser
  - `startup.rs` — command-line overrides applied to the stored settings
  - `tray.rs` — tray notifications, context menu, tooltip buffer and icon
    registration bookkeeping
  - `ui_main.rs` — the main window's state (settings in effect and as
    stored): start-up, jiggle ticks with smart-pause and the daily
    auto-stop, control changes and tray commands, each returning the
    actions for the window to carry out, plus timer intervals and the
    tooltip text
  - `util.rs` — character helpers, decimal rendering, `u32` parsing and
    UTF-16 encoding
- `tests/` — tests of the library on concrete values
- `app/` — the Windows program around the library: Win32 dialog, tray icon,
  `SendInput`, console output, the single-instance mutex, and the JSON
  config files (serde)
