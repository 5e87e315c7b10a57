# freddie

A framework for typed event-to-state machines, verified with Verus.

- `src/` is the verified library. `laserbeam` is the typed mutable cursor into a single-owner
  tree and the leaves a dispatch completes to; `bind` is the schedule that dispatches an event
  over such a tree (the claim, `exclusive`, `and`, the fold); `keys`, `key_sequence`, `sequence`,
  `remaps` and `keyboard` are the keyboard vocabulary, the key-run state machines and the
  dual-role remaps; `sync` and `timer` are the two-phase synced value and the RAII timer; `client`, `logs`,
  `single_instance`, `instance`, `event_socket`, `app_nav` and `menu_bar` are the decisions of
  the command line, the log viewer, the lock, the event socket, app navigation and the menu-bar
  icon; `text` holds the facts about text they share.
- `tests/` runs the library.
- `app/` is the ordinary Rust around it: file locks, processes, the WebSocket listener, the
  tracing subscriber and the process-wide timer ids.
