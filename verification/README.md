# kad

The message layer of a Kademlia node, verified with Verus.

- `src/` is the library: the keys of a node and of its peers (`keys`, `keyring`,
  `crypto`), what each request is answered (`rpc`), and how peers are reached and
  share a connection (`network`). `util` holds the values that travel, `hex` the
  text of signatures.
- `app/` puts the library on the network: serialised messages, key files,
  connections and the tasks that run them.
- `tests/` runs the library on given values.

The library calls the `rsa` crate through the functions in `src/keys.rs` that
are marked as external; their comments say what is taken from it on trust.
