# fsel

A terminal application launcher with a dmenu-compatible picker and a
clipboard-history browser. The library under `src/` holds the program's
logic written in Verus and proved against its contracts: the command line,
the configuration, desktop entries, the pickers' filtering, selection and
key handling, and preview commands. The terminal, files, processes and
environment are handled by the ordinary-Rust program under `app/`, which
calls the library for each decision.

## Layout

- `src/` — the verified library:
  - `cli/` — the options, the command-line reading and its checks, the
    configuration defaults they start from, and the help texts.
  - `config/` — the configuration sections, their defaults, the
    `FSEL_*` environment overrides, and how each picker's settings fall
    back to the shared ones.
  - `desktop/` — desktop-entry parsing, desktop-file IDs, desktop filters,
    the entries each desktop file and `PATH` contribute, and the listing
    order.
  - `icons/` — icon-theme metadata, directory scores, settings files, the
    theme inheritance walk and the choice among candidate files (the
    program does not draw icons yet).
  - `preview/` — placeholder expansion for preview commands, their output,
    and the state of a preview panel.
  - `cclip/` — clipboard entries, their labels, tags and HTML text, the
    tag prompts and the input panel.
  - `dmenu/` — command panels, the panel editor, the screen layout, the
    columns of input lines and the query line. The screen layout is a
    fixed one: an input row, a title row, and the list with the preview on
    its right half; the command panels are cut from the list. The
    title-panel height and position, the input-panel height and the
    info/input panel positions and sizes are read, checked and edited, but
    the layout does not use them yet.
  - `launcher.rs` — matching rows against the query, the direct launch
    by name, and the launcher's list as it reacts to keys.
  - `navigation.rs`, `keys.rs` — list movement, submit, mouse handling and
    key classification for the three pickers.
  - `cache.rs` — when cached entries and file lists may be reused (the
    program keeps no cache yet).
  - `path_key.rs` — reversible hex keys for paths.
  - `text.rs` — character-sequence helpers shared by the rest.
- `tests/` — tests of the library on concrete values.
- `app/` — the program: configuration file, terminal interface, processes.

Verification: `verus` on `src/lib.rs`; the laws of the library are the
public proof functions (`lemma_*`).
