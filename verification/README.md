# git_sv

The verified core of a terminal git client: what each screen shows, how keys
and mouse clicks become actions, how the screen is cut into panels, and when
the repository watcher asks for a refresh.

## Layout

- `src/` is the library, checked by Verus. Each view module builds the lines
  of its panels as styled segments (`style::Segment`) and states them in its
  contracts over spec functions; `input/` maps keys and clicks to actions,
  `hit_test` finds the zone under a click, `layout` cuts the screen with
  ratatui's solver, `watcher` decides when to refresh, `diff_align` pairs the
  lines of a side-by-side diff. Laws that span several functions are public
  proof functions named `law_*`.
- The calls into chrono, ratatui and git2 that the logic makes stand behind
  small trusted wrappers whose contracts say what those crates document.
- `app/` draws the library's lines with ratatui, reads crossterm events,
  and runs the watcher's loop over the file system.
- `tests/` runs the library with the real outside crates.
