# statemachine

A small tracing-enabled web service, with its logic verified in Verus:

- `src/config.rs`: log level filters and their configuration text, the
  default configuration, and how the command-line flags decide the final one.
- `src/handlers.rs`, `src/web_api.rs`, `src/grpc.rs`, `src/statemachine.rs`:
  the query handlers and the greeting service.
- `src/metadata.rs`, `src/holdings.rs`, `src/statemachine.rs`: the carriers that
  write and read trace context in gRPC metadata (through `tonic`), with the
  proof that what one writes the other reads back.
- `src/web_ui.rs`: the forwarding rules of the web front end (through `url`).
- `src/telemetry.rs`: the library's part of starting telemetry.

`app/` holds the programs around the library (`service` and `web_ui`, chosen
by the first argument): HTTP servers, file and network I/O, the serde and clap
forms of the configuration, and the tracer installation.
