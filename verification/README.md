# griddy

A grid-based tiling model for a Wayland compositor, written in Verus.
Workspaces sit on a grid of cells; each workspace tiles its windows into
six slots (two halves, four quarters), with stacks per slot, floating,
fullscreen and "total fullscreen" layers, slot adaptation and conflict
policies, focus history and back/forward navigation.

## Layout

- `src/` — the verified library.
  - `grid/` — the window model: cells, slots, placement, moves, focus,
    resizing the grid, geometry of slots and thumbnails.
  - `dispatch/` — what every keybind action does to the compositor state,
    as a step from state to state plus the effects the caller performs.
  - `keybind/` — action names and arguments, the built-in binds, bind
    tables and the cheatsheet.
  - `toplevel.rs` — placing a new window: rules, session hints, parents,
    swallowing and focus-steal prevention.
  - `config/` — the configuration model, window rules and glob matching.
  - `ipc/` — the command language of the IPC socket, the answers to its
    queries, and the event stream's wire format.
  - `session.rs`, `crash.rs`, `text.rs`, `seqs.rs` — saved sessions, crash
    recovery, and text helpers.
- `tests/` — tests of the library.
- `app/` — the program around it: argument handling, reading the TOML
  configuration and the saved session, the IPC sockets, spawning
  processes. The display backend is not part of this build.
