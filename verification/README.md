# lightning_liquidity

Protocols between Lightning nodes and liquidity providers (LSPs): asking which protocols a peer
supports (LSPS0), ordering channels (LSPS1) and buying channels just in time for a payment (LSPS2).

- `src/` is the library. Every item in it is verified with Verus. It performs no I/O: the current
  time, random bytes and the queues of messages and events are handed in, and what is to be done on
  the node's channel manager is handed back.
  - `lsps0`, `lsps1`, `lsps2`: the protocols, with a client and a service side.
  - `jit_channel`, `versioned_msgs`, `lsps1::channel_manager`: the same in the form in which each
    request names a protocol version.
  - `transport`: a transport layer that knows a single protocol, and JSON-RPC objects.
  - `manager`: what connects the protocols with the peers.
  - `json`, `text`, `utils`, `collections`, `message_queue`, `events`, `types`, `errors`: what they
    are built on. The functions of `serde_json`, `bitcoin` and `chrono` that the library calls are
    wrapped there, in `jit_channel::utils` and in `manager`; each wrapper says what it takes from
    the wrapped function without proof.
- `app/` runs the library on an LDK node: serialisation of the payloads, locks and wake-ups, the
  clock and entropy, and the calls into the channel manager.
- `tests/` runs the library.
