# p2p_peer

A peer of a small gossip network. Started with `--port` (its address),
`--period` and optionally `--connect` (a first peer), it adds itself to the
peers it learns of, subscribes to their gossip, and every period sends random
gossip to the peers subscribed to it.

- `src/` is the verified library (Verus): configuration, errors, the peer
  messages, the client's requests, the registry of greeting peers, the peer
  table (a `dashmap::DashMap`) and the rules by which it grows, the choice of
  peers to dial, gossip production (tokio broadcast channel, `rand`), and the
  relay decisions of a subscription. `src/laws.rs` states the properties that
  hold across operations.
- `app/` is the program: command line (clap), gRPC (tonic, prost), the async
  tasks and printing.
- `tests/` runs the library on concrete values.
