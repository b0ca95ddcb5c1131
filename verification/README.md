# iced_af

The core of a multi-window desktop application framework, verified with
Verus: the window manager (window threads, disabling of the windows below
an opened window, reusable window states), the window states and their
message handling, the preferences logic, the localised string tables and
the localisation of the user interface, log levels and the logger
configuration, the session data, and the errors with the localisation data
that describes them.

Layout:

- `src/` — the verified library. `application.rs` holds the headless
  application state and its message handler, which yields commands for a
  runtime to perform; `manager.rs` the window manager; `window/` the window
  states; `localisation/` the localised string tables.
- `app/` — the program around the library: the command line (`clap`), the
  console logger (`log4rs`), saving and restoring the session (`serde`,
  `ron`, `dirs`), building the localiser (`i18n`), and the runtime that
  performs the library's commands.
- `tests/` — tests of the library.
