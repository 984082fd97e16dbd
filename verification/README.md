# grpc_alarms

The decision-making core of an alarm-state service, verified with Verus.

Automated alarm updates arrive from a Redis stream, user commands from a gRPC service. A
coordinator decides which updates are worth publishing, validates user actions against the
latest known state, and tracks each key's intent speculatively until the publish of that intent
is confirmed. A workflow handler runs each job through its effects (snooze timer, then publish),
a publish engine retries failed deliveries and batches automated results, and a snooze registry
keeps track of bypass timers.

## Layout

- `src/` — the verified library.
  - `model/` — alarm statuses, keys, user actions, errors, snooze and publish messages.
  - `engine/` — transition policy, the coordinator and the laws relating its decisions, the
    workflow handler, and ingress overload handling.
  - `effects/` — publish retries and batching, snooze timer bookkeeping.
  - `adapters/` — gRPC replies, Redis stream entries, startup hydration.
  - `dpm.rs`, `devdb.rs`, `ioc.rs`, `epics.rs` — data acquisition replies, device database
    records, IOC alarm state and Phoebus state messages.
  - `metrics.rs`, `collections.rs`, `text.rs`, `clock.rs` — metrics, keyed maps, string
    helpers and clock readings.
- `tests/` — tests of the library, run against the compiled crate.
- `app/` — the service binary: channels and tasks around the library, Kafka, Redis and gRPC.
