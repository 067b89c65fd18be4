# boosty_loader

Verified core of Boosty Loader, a desktop window around the
`boosty-downloader` command-line tool. The library holds the rules of the
application together with their proofs; `app/` holds the Tauri commands,
files, processes and threads, runs the steps the library chooses, and keeps
the few floating-point operations (the delay comparison, the rounding of a
percentage) and the serde parses.

- `src/text.rs` — Unicode trimming, decimal digits and decimal rendering.
- `src/json.rs` — JSON string literals through `serde_json`: single-line YAML
  scalars that read back as the text they quote.
- `src/version.rs` — reading `major.minor` from an interpreter, the Python 3.10
  floor, the order in which interpreters are tried.
- `src/settings.rs` — settings checks, the first step of a download, the
  downloader's command line and its `config.yaml`.
- `src/output.rs` — sorting the downloader's output lines and wording progress.
- `src/process.rs` — judging helper commands, the environment of a download,
  search-path deduplication, and the state of the running download.
- `src/runtime.rs` — `uv` release selection, the choice of installation route
  and the commands of each route, the search for the unpacked `uv`, the search
  for a working downloader and the runtime status.
