# windows_clicker

The logic of a Windows mouse and keyboard auto-clicker, written in Verus.

- `src/config.rs`: intervals, clicks-per-second speeds and presets, key-name
  parsing, and the clicker configuration.
- `src/input.rs`: decisions on synthesized and hooked input events, hotkeys,
  scancodes and mouse-event flags.
- `src/runtime.rs`: the armed state of both clickers.
- `src/language.rs`: the English and Chinese texts of the window.
- `src/controls.rs`: what the window's controls, commands and hotkeys mean,
  and one round of a clicker's worker.
- `src/text.rs`: white space, trimming, ASCII case and decimal parsing.
- `src/laws.rs`: properties that span several functions.
- `app/`: the Windows program (window, hotkeys, worker threads, `SendInput`).
