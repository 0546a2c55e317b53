# better_panely

The core of BetterPanely, a desktop workbench that mirrors other windows as
live compositor thumbnails and hosts small built-in tools, written in Verus.

- `src/` is the library. Every function in it carries a contract that Verus
  proves: settings and their normalisation, localisation, the thumbnail
  registry and its layout and restacking decisions, the window list and its
  order, drag tracking, tray menu decisions, saved-layout reading, and the
  multi-step flows (settings updates, hotkey moves, thumbnail rebuilds) as
  state machines whose every step is specified.
- `tests/` runs the library on concrete values.
- `app/` is the Tauri shell: commands, Win32 and DWM calls, files, threads and
  the tray. It performs the effects the library's state machines ask for and
  hands back their outcomes.
