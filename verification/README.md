# pg_lens_tui

The logic of a terminal dashboard for PostgreSQL, written in Verus: every
key press, poller event and host outcome goes through `update`, a verified
state transition over the dashboard's state (`App`), and every piece of
text the screen shows is built by a verified function whose contract says
exactly what it renders.

## Layout

- `src/app.rs`: the dashboard state, its invariant (`App::wf`), cursors,
  sorting orders, selection and the clipboard payload.
- `src/update.rs`: the one entry point, `update(app, action)`, and the
  constructor `App::new`.
- `src/topkeys.rs`, `src/keys.rs`, `src/lens_keys.rs`, `src/enter_esc.rs`,
  `src/navigation.rs`, `src/filtering.rs`, `src/dashboard.rs`: the keymaps
  and what each key does.
- `src/rows.rs`, `src/order.rs`: row filters and the stable display order
  of every lens.
- `src/snapshot.rs`: the data one poller snapshot carries.
- `src/ui/`: the text of titles, badges, table cells and panel lines.
- `src/psql.rs`, `src/clipboard.rs`, `src/readonly.rs`, `src/startup.rs`:
  launching `psql`, OSC 52 copy, read-only mode and startup decisions.
- `src/laws.rs`: properties that span several keys or states.
- `app/`: the terminal host (flags, the event loop, drawing, files).
- `tests/`: scenario tests run against the compiled library.
