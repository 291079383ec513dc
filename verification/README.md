# ceresdb

The setup of the analytic engine of a CeresDB node, and the types that the node's meta client
exchanges with the meta service, written in Verus.

- `src/analytic_engine/` decides what is opened for an engine, in which order, and which error
  ends the setup. Each opening is a state that says what to do next and takes the answer:
  `wal.rs` for the wal and the manifest, `storage.rs` for the object store, `setup.rs` for the
  whole engine and its builders. What holds of every opening is proved in `storage_laws.rs` and
  `setup_laws.rs`.
- `src/meta_client/` holds the types of the meta client (`types.rs`), the messages they are
  exchanged as (`meta_service.rs`, `cluster.rs`), and how one is made from the other
  (`requests.rs`, `responses.rs`, with `route_entries.rs` for the routing of tables). What holds
  of every exchange is proved in `laws.rs` and `endpoint.rs`.
- `app/` is what surrounds the library: it runs a setup over an implementation of its trait
  `Components`, which supplies the wal, the stores and the instance, turns messages into their
  protobuf form, and reads the client's configuration.
