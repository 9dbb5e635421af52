# GitLink

A keyboard-driven terminal companion for GitHub: slash commands in a terminal UI,
sync and push checks, a secret scanner, a task planner and poly-repo commit
sessions. The decisions and the text of every page are written in Verus and proved
against their contracts; the terminal, the network, git and the file system stay in
a thin layer of ordinary Rust around them.

## Layout

- `src/` — the verified library.
  - `router.rs` — parsing of slash commands and the text of the GitHub pages.
  - `tui/` — the state of the terminal UI: key handling, overlays, ticks, and the
    lines each screen shows.
  - `github/` — sync and push checks, repository selection, the cache path, the
    action list and the branch and issue listings.
  - `scanner/` — secret patterns, path filters, findings and the ignore list.
  - `planner/` — tasks, their storage format, undo/redo history and the planner
    session.
  - `prp_hub/` — the poly-repo session: the order of the repositories found,
    repository checks, status classification, commit groups, the exclusion list and
    the step function that decides what to commit, push, revert on a remote or roll
    back next.
  - `text.rs`, `ids.rs`, `auth.rs` — text helpers, identifiers and the device
    login flow.
- `tests/` — tests of the library on concrete values.
- `app/` — the program: argument handling, the terminal loop, HTTP, git, files
  and prompts, each calling into the library for what to do and what to show.

Each public function states in its `ensures` what it returns or changes; the
properties that tie several calls together are public proof functions named
`law_*`, next to the functions they are about.
