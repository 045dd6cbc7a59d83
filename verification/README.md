# notify_rust

Desktop notifications, with the library's logic verified by Verus.

- `src/` is the verified library: the notification builder and its hints,
  actions and raw images, the conversions to and from the D-Bus wire format,
  the desktop portal conversion, the decisions and session state machine of
  the notification servers, and the requests and answers of the macOS and
  Windows platform APIs. `src/properties.rs`
  states the properties that hold across operations (round trips, what adding
  a hint keeps, how the wire formats read back what was written).
- `app/` is the command-line program and the session-bus plumbing around the
  library: it reads the environment and files, decodes image files, talks to
  the bus with zbus (including a zbus notification server that runs the
  library's sessions), and hands the library plain values.
- `tests/` runs the library on concrete values.
