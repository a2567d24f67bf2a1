# ltk_diagnostics

System health checks for troubleshooting the League mod patcher, written in
Verus. Each check is a function from facts about the system (paths, registry
readings, probe outcomes) to a `Check` with a severity, summary, detail rows,
suggestion and optional fix command; every check's result is pinned down by
its contract over the `CheckView` model in `src/report.rs`.

- `src/` — the verified library: one module per group of checks
  (`windows`, `processes`, `paths`, `compat_flags`, `storage_medium`,
  `patcher_dll`, `library_index`, `non_windows`), the report model, text
  rendering helpers, the suite (`run_all` in `lib.rs`), command decisions
  (`commands`), and properties of the library as a whole (`laws`).
- `app/` — a command-line front end that gathers the facts from the running
  system (registry, file system, Win32 calls), runs the suite and prints the
  report as JSON.
- `tests/` — tests of the library on concrete values.
