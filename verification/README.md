# aube embedding, verified

The request handling of the aube package manager's embedding API and of its
two Erlang NIF bridges, written in Verus.

- `src/paths.rs` — paths as the bytes of their OS encoding, and the text they are shown as.
- `src/options.rs` — lockfile override and mode, network mode, dependency selection.
- `src/embedded.rs` — the install request, its validation, the install plan,
  CLI argument vector and run results.
- `src/native_nif.rs` — option map to install request, install reply, worker count.
- `src/beam_nif.rs` — option checks and install options of the embedding-API bridge.
- `src/codes.rs` — error codes of the bridges.
- `src/laws.rs` — properties across the functions above.
- `app/` — file system, clock, locks, progress output and NIF term glue; the
  install engine itself is supplied by the host.
