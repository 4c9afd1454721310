# sidex_app

The editor-shell logic of the SideX code editor, written in Verus: tab
groups and their layout, command-line parsing, the command registry and
palette, fuzzy matching, translations, clipboard history, recent files,
backups, telemetry policy, test-output parsing, the updater's state machine
and the other decisions the shell takes. Each public function states its
behaviour in `requires` / `ensures`, and Verus proves the code against it.

## Layout

- `src/` — the verified library, one module per concern (`editor_group`,
  `app`, `cli`, `commands`, `fuzzy`, `i18n`, `recent`, `backup`, ...).
  Calls into the standard library and outside crates (`humantime`,
  `serde_json`, `arboard`, `dirs`, `hostname`) sit behind small trusted
  wrappers, each with a doc comment saying what its contract claims.
  `paths` names what `std::path::Path` answers; `clock` turns clock
  readings into integers so that time-driven decisions are verified over
  plain numbers.
- `tests/` — ordinary Rust tests of the library on concrete values.
- `app/` — the program around the library: `main`, argument handling with
  `clap`, file and clipboard I/O, logging setup, and the loops that feed
  clock readings and file-system answers to the library's decisions.
