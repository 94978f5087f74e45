# raft_mem_coordination

The verified core of a Raft-replicated coordination node.

- `src/` is the library, checked by Verus:
  - `config`: the node's configuration.
  - `raft_config`: the Raft timings and the openraft configuration built from them.
  - `tls`: certificate chains and keys read from PEM text, the rustls server
    configuration built from them, and the node's self-signed certificate.
  - `network`: the addresses a peer is reached at, the URLs and retry
    decisions of peer RPCs, and the writes of the coordinate endpoints.
- `app/` is the program around it: YAML loading, file reads and writes,
  the HTTP client loop, the openraft trait impls and the HTTP server.
- `tests/` runs the library on concrete values.
