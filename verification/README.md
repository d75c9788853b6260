# OTA Flasher

A desktop program that keeps a fleet of ESP32 devices up to date. It compiles a sketch with
`arduino-cli`, uploads the binary, and tells a device over MQTT where to fetch it; then it waits
for the device to report that it runs the new version. One device or many can be updated at a
time; devices that share a sketch share its compilation and its upload.

## Layout

- `src/` is the library, verified with Verus. It holds the state of the program and its rules:
  what each event changes, what is asked for next, what can be done and what a device's row, a
  deployment's steps and its summary say. It reads no file and opens no connection.
- `app/` is the program around it: the window, the broker, the requests, the processes and the
  files. It performs the library's `Action`s and hands back `AppEvent`s.
- `tests/` runs the library on examples.

Within `src/`, `model.rs` says what an `App` holds and how each event changes it, and `app.rs` does
so. `settings.rs`, `devices.rs`, `register.rs`, `deploy.rs` and `bulk.rs` hold what a user can do,
`compile.rs`, `worker.rs` and `mqtt.rs` the steps of compiling, uploading and listening.
`laws.rs` states what holds of deployments as a whole. `outside.rs` holds the calls into other
crates, with what is taken for granted of each.

Paths are text in the POSIX notation.
