# xan_actor

An Akka-style actor system whose decision logic is verified with Verus.

- `src/` — the verified library:
  - `registry.rs`: the actor registry (register, find, lifecycle updates,
    wildcard filter, restart and unregister by pattern) and the job table;
  - `pattern.rs`: `*`-wildcard address patterns and their anchored regular
    expressions (the `regex` crate does the matching);
  - `cache.rs`: the per-handle mailbox cache, keyed by name and actor type,
    and what follows a send through a cached mailbox;
  - `delivery.rs`: the readiness retry policy of sends;
  - `send.rs`: the state machine of one local send (cached mailbox, fresh
    lookup, retries, delivery);
  - `lifecycle.rs`: the lifecycle transitions of an actor task, its
    registration retries, the order of its hooks and its reaction to handler
    errors;
  - `job.rs`: job schedules, the job loop's state machine (iteration cap,
    stop/resume/abort) and job ids;
  - `inter_node/`: structural addresses, routing, broadcast planning, topics
    and envelopes, the decoder lookup and the pending-request table;
  - `error.rs`: the error type.
- `app/` — the tokio runtime around the library: actor tasks, mailboxes,
  the command loop, the xanq broker connection and its consumers.
- `tests/` — tests of the library on concrete values.
