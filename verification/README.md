# nucleus

The workspace logic of the Nucleus code editor, written in Verus: each
function states what it does in a `requires`/`ensures` contract, and Verus
proves the code against it.

- `src/` — the verified library.
  - `fuzzy` — case-insensitive fuzzy matching with its score.
  - `palette` — the command palette / quick open: listing, stable ranking, picking.
  - `editor_area` — tabs, the active tab, pending editor contents, language detection.
  - `workspace`, `action` — the actions the workspace carries out, and their effects.
  - `bottom_panel` — terminal tabs, scrolling, the input line, logs and problems.
  - `git_status`, `left_sidebar` — Git status lookup and badges, source-control commands.
  - `keybindings`, `settings_view`, `title_bar`, `activity_bar`, `status_bar`,
    `right_sidebar` — the remaining views' own state and rules.
  - `recovery` — crash-recovery snapshots: backup names, the JSON record
    written through `serde_json`, and the start-up scan that reads them back.
  - `text`, `paths` — character-sequence helpers and file-name rules.
- `tests/` — tests on concrete values.
- `app/` — what touches the disk and the clock, and the floating-point
  panel sizes: the saved layout, the file walk for quick open, snapshot
  files, and running the effects the library asks for.
