# gs_visualizer

A bridge that serves live TISM shared-memory data to Foxglove over a local
WebSocket server. Each configured channel maps one TISM address to one
Foxglove topic; one worker per channel polls its source and republishes the
payloads.

## Layout

- `src/` is the verified library (Verus):
  - `config` — the configuration types, their defaults, channel
    normalisation, whole-configuration validation and the resolution of
    relative schema paths; `config_laws` proves what validation accepts.
  - `worker` — the per-channel decisions after each read: publish, skip an
    unchanged payload, skip an oversized one, wait for the publisher, retry.
  - `source_tism` — the step-by-step protocol of one read of a TISM
    allocation (open, map, check version and zombie flag, lock, copy,
    release), with its resource discipline proved.
  - `schema`, `publisher` — the schema a channel advertises and the
    registration of its Foxglove channel.
  - `runtime` — how the bridge's result follows from why it stopped, and the
    slicing of sleeps so that a shutdown is noticed promptly.
  - `rate`, `text`, `paths`, `error`, `bridge` — publish rates, white space,
    path operations, errors and the validated bridge.
- `app/` is the program around it: TOML parsing, the Tokio runtime, the
  WebSocket server, the blocking workers and the `libc` calls on shared
  memory.
- `tests/` exercises the library.

## Configuration

- `server` controls the WebSocket bind address, port, advertised name and
  message backlog.
- `bridge` controls the default publish rate and the retry interval for
  reopening sources.
- Each `[[channels]]` entry names a `tism_address` and a `topic`; relative
  `schema_path` values are resolved against the configuration file's
  directory. FlatBuffer channels need a schema name and path; topics and
  addresses must be unique; publish rates must be finite and positive.
