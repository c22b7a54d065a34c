# swim

The decision core of the swim X11 window manager, verified with Verus.

- `src/` is the library. `wm.rs` holds `WindowManager`, a state machine: an X
  event goes into `dispatch_event`, which answers with the first request to
  send (or the outcome); the reply to each request goes into `handle_reply`,
  which answers with the next request, until the event is handled.
  `setup.rs` drives the startup the same way. `model.rs` states, over an
  abstract state, what every step does; `laws.rs` proves properties that span
  several steps. `tags.rs`, `geometry.rs`, `ipc.rs`, `ewmh.rs` and
  `requests.rs` hold the data the machine works on.
- `app/` is the program: it connects to the X server with x11rb, turns X
  events into the library's events and performs the requests it asks for.
- `tests/` drive the state machine with a simulated server.
