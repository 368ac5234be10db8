# rust_maelstrom

A library for writing nodes of [Maelstrom](https://github.com/jepsen-io/maelstrom)
distributed-systems workloads, verified with Verus.

- `src/` is the verified library: messages and their replies, error replies, id counters,
  the brokers that route replies and events to the tasks that wait for them, the event
  worker with its queue and subscriptions, the topic queue, and the logic of the echo,
  broadcast and list-append transaction workloads. Calls into tokio's channels go through
  small trusted wrappers in `src/channel.rs`.
- `app/` is the unverified rest: JSON on stdin and stdout (with serde copies of the message
  types), the tokio tasks and loops that drive the library, and the workload programs.
- `tests/` exercises the library on concrete values.
