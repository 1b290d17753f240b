# basilk

The logic of a terminal kanban task manager, written in Verus and verified:
projects of tasks (status Up Next / On Going / Done, priorities, estimates,
time spent), global Markdown notes, a stopwatch and a countdown timer, a
list view and a board view.

## Layout

- `src/` is the verified library. `state.rs` holds the application state;
  `handlers.rs`, `detail_handlers.rs`, `note_handlers.rs` and `dispatch.rs`
  decide what each key press does, each with a contract that states the
  next state exactly. Where the outcome depends on the clock (pausing,
  stopping or ticking a timer, the timer screen's keys), a `*_given`
  function takes the clock reading and states the outcome exactly; the
  function that reads the clock states the same for the reading it took. `task.rs`, `project.rs`, `note.rs` and `selection.rs`
  hold the lists and their ordering; `migration.rs` and `json.rs` the data
  file's versions; `markdown.rs` renders notes; `view.rs`, `ui.rs`,
  `util.rs` and `timer.rs` compute what the screens show. `laws.rs` states
  and proves the properties that span several functions.
- The few calls into outside crates (the clock, chrono's local time,
  pulldown-cmark's parser, ratatui's layout solver) stand behind small
  trusted wrappers, each documented with what its contract claims.
- `app/` is the program around the library: the terminal, the event loop,
  drawing with ratatui, and reading and writing the data file with serde.
- `tests/` runs the library on concrete values.
