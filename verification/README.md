# rover

Rover is a small platform for running apps on a phone (Android/Termux): a
server keeps apps, builds and runs them, and a desktop client deploys to it.
This crate holds the logic of both sides, verified with Verus.

## Layout

- `src/` — the verified library.
  - `text.rs`, `num.rs`: character and number helpers the rest builds on.
  - `status.rs`, `manifest.rs`, `profile.rs`, `ids.rs`, `error.rs`,
    `proto.rs`, `transport.rs`: shared records — runtimes and app states,
    the `rover.toml` manifest checks, saved connection profiles, wire codes.
  - `server/`: pairing and API keys (`auth`), deploy steps as a state
    machine (`deploy`), restart policy (`process`), request handling
    (`service`), tunnel addresses (`bore`), `/proc` parsing (`metrics`),
    language runtimes (`runtime`), stored rows (`state`).
  - `client/`: the multi-server client as a message/effect state machine
    (`update`, `model`, `jobs`, `app`), the single-device client (`device`),
    source packaging rules (`source`, `package`), display formatting
    (`format`, `ansi`).
- `tests/` — tests run against the compiled library.
- `app/` — the program around the library: command line, SQLite store,
  process spawning, file walking; the library hands it plain values.

Calls into outside crates (hashing, random tokens, UUIDs, tar, gzip, TOML)
go through small trusted wrappers whose contracts are documented where they
are declared.
