# formation

Instance records of a Formation node and the decisions made around them, as a
Verus-verified library (`src/`), with the network, terminal and replication glue
in `app/`.

- `model`, `instance`, `snapshots`, `cluster`: the instance record and its parts,
  with a mathematical view of each; accessors, copies and comparisons; the
  snapshot history walk; cluster membership kept in key order.
- `codec`, `keys`: hexadecimal text and secp256k1 secret keys, through the `hex`
  and `k256` crates.
- `state`: the decisions of the replicated instance store (whether an update
  took effect, selection by build id, lookup by address, local update plans).
- `pack_status`: the reports of the `status` command, as styled pieces of text.
- `vmm_api`: events and answers of the VMM service's HTTP API, and its routes.
- `text`: string order, equality and decimal text.
