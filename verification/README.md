# Image Lab

A desktop application that asks image services for pictures and keeps a history of the requests.

- `src/` holds the rules of the application, written in Rust and proved with Verus: the normal form
  of the settings, the requests to a service and the reading of its answers, the history, the names
  of files. It reads no file and opens no connection; `src/laws/` states what holds of it as a whole.
- `app/` is the application around it: the user interface's commands, the files, the network, and
  the threads in the background.
- `tests/` runs the library on concrete values.

The library calls `base64`, `chrono`, `serde_json` and `uuid`. What it relies on of each call is
stated at the function that makes it, which is marked `external_body`.
