# hyprmux

The operations layer of a terminal multiplexer (panes, workspaces, focus, pickers, control
requests), written in Verus: each operation is a function over a plain model of the
multiplexer's state, with a contract that says exactly what it does, proved by Verus.

What cannot be proved here stays at the edges and is handed in as plain values: geometry measured
in floating point (which pane lies ahead, how a pane sits in a scrolled strip), what a fuzzy search
matched, whether a key chord parses, and anything that reads or writes outside the process.

## Layout

- `src/model.rs` — panes, workspaces, the session and the client state, with their views.
- `src/tiling.rs`, `src/focus.rs`, `src/workspace.rs` — the tiled order, focus moves and
  fallbacks, Scrollable reveal, switching, moving and relocating workspaces.
- `src/control.rs` — the control endpoint: routing requests, the layout-write gate, pane moves,
  swaps and edits, new-pane placement, notifications, and the code and text each refusal answers
  with.
- `src/attached.rs` — requests forwarded to a session server, and the replies held for them.
- `src/capture_wait.rs` — pane waits and the marks that start them.
- `src/confirm.rs` — two-press confirmations, leaving the client, killing a workspace.
- `src/spawn_reply.rs`, `src/input_queue.rs` — `new-pane` replies held until the pane's program
  starts, and input queued behind a starting pane.
- `src/pick.rs` — the `pick` picker and the JSON lines it answers with.
- `src/streams.rs`, `src/registry.rs`, `src/json.rs` — published rows, agent slots and extension
  subscriptions.
- `src/profile.rs`, `src/overlay.rs` — the profile picker, the layout picker, returning to a
  parent dialog.
- `src/extensions.rs`, `src/install.rs` — the extensions manager: groups, highlights, the
  disabled list, row descriptions and index reports; installing from a source or the index, and
  updating.
- `src/reload.rs`, `src/editor.rs` — what a configuration reload kicks and announces, and opening
  the configuration in an editor.
- `src/popup.rs`, `src/last_output.rs`, `src/agents.rs`, `src/text.rs` — the popup's lifecycle,
  copying the last command's output, the Agents view, trimming text.
- `app/` — the configuration watcher, a picker's reply channel, environment lookups, and the
  refusal answers put together from the library's codes and texts.
- `tests/` — scenarios run against the compiled library.
