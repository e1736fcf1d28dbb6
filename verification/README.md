# p2p_tunnel

Control-plane logic of a peer-to-peer VPN node built on libp2p, verified with
Verus.

- `src/` — the verified library:
  - `protocol/` — the application message set, service queries and RPC calls;
  - `p2p/swarm.rs` — interpretation of operator input, bootstrap targets and
    listen addresses;
  - `p2p/relay.rs` — relay reservation state, with the law that a manager holds
    exactly the reservations accepted since its last release;
  - `p2p/events.rs`, `p2p/log.rs` — what the node does about each swarm event,
    and the text of its log lines;
  - `p2p/control.rs` — the control API: planning a request, grouping stored
    peers by peer id, looking a peer up;
  - `p2p/discovery.rs` — usable saved addresses and bootstrap peer ids;
  - `services/` — chat input and the peer lifecycle (`PeerService`, which
    records the actions that the event loop carries out);
  - `db.rs` — rows of the on-disk peer table, with the law that rows written
    for peers read back as those peers; `config.rs` — the command line;
  - `chat_node.rs` — the event handling of the standalone chat node;
  - `identity/` — the node's peer id, and its keypair as kept between runs
    (read back from stored bytes, or a fresh one and the bytes to keep);
  - `text.rs` — verified text utilities; `types.rs` — the libp2p types and the
    few libp2p and std functions the logic calls, with their trusted contracts.
- `app/` — the program: swarm construction, the async event loops, SQLite,
  files, the VPN data plane over FFI, and the serde wire format of messages.
- `tests/` — tests of the library.
