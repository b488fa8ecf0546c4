# msgbus

A message bus in which listeners register under a key and receive direct
messages, broadcasts, RPC requests and a shutdown notice.

- `src/` is the verified core: the routing table (`registry.rs`), the rules
  that turn channel outcomes into the bus's results (`reply.rs`), the error
  type (`errors.rs`) and the laws that tie them together (`laws.rs`).
- `app/` is the asynchronous bus on `tokio`: the task that owns the routing
  table and the cloneable handle; it awaits the channels and leaves every
  decision to the core.
- `tests/` exercises the core on concrete values.
