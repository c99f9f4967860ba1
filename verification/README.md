# kube_portforward

Kubernetes port-forward over multiplexed SPDY/3.1 with WebSocket transport,
falling back to the `Upgrade: SPDY/3.1` path. The decisions are verified with
Verus; waiting, sending and spawning is ordinary Rust around them.

- `src/` is the library. Every operation that depends on something outside is
  a small state machine: it answers with the next step, and the caller hands in
  the outcome.
  - `spdy/`: lazily opened stream pairs, their read and write sides, and the
    spreading of streams over a pool of connections.
  - `connect`, `client`: upgrade requests, the checks of their answers, the
    fallback, and the opening of a session.
  - `session`: request ids and spare streams of one session.
  - `pod_watch`: which pod is the target.
  - `forwarder/`: the pool of sessions, prefetching, pruning, and the search
    for a session.
  - `outside/`: what is taken from other crates, with the contracts relied on.
- `app/` runs the library on tokio, kube and hyper. The SPDY codec is plugged
  in through `mux::MuxFactory`.
- `tests/` runs the library from outside.

The public functions named `law_...` state what holds across operations.
