# wiremock_ui

A desktop front end to a standalone WireMock server, with its logic verified
in Verus.

- `src/` is the verified library:
  - `api`: the admin API. `API` plans each operation as an `AdminRequest`
    (method, address under the server's base URL, body); `requests` and
    `responses` hold the records sent and read back.
  - `wiremock`: the command line that starts the server, and the outcome of
    starting the folder watcher.
  - `ui`: the state of the control panel and its decisions (which screen,
    what the server button says and asks for).
  - `text`: decimal numerals, with the proof that they read back.
- `app/` is the program: the window (eframe, rfd), the HTTP exchange
  (reqwest, tokio), the server process and the folder watcher (notify), and
  the JSON forms of the records (serde).
- `tests/` runs the library on concrete values.
