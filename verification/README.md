# zenoh_net

The network core of a node, as a Verus library: executable Rust whose behaviour is stated in
contracts and proved.

- `framing`, `rx_carry`, `link`, `link_rx`, `link_ack`: batches on unicast links. A folding reader
  takes as few reads as the stream allows and carries what it read too much over to the next batch.
- `whatami`, `gateway`, `region`: the configuration of the bounds between regions, and the region
  that it assigns to a remote.
- `p2p_peer`, `face_close`: routing between peers, and the closing of a face.
- `queueing`: the queue of a face, whose worker makes the queued calls in order.
- `queryable_batch`: batches of queryable propagations, flushed less often under high load.
- `diag_sites`, `histogram`, `diagnostics`, `diag_report`, `diag_timers`, `metric_text`: counters of
  the routing and their report.
- `lock_compat`: locks whose acquisition never fails.
- `clock`: time, as whole nanoseconds since a fixed origin.

Where the library reads a clock, a second function takes the reading as an argument and says exactly
what follows from it. Where it asks a channel, functions that take the answer say exactly what is
done next and what is reported, and the outcomes that an item can have are stated. `app/` holds what
surrounds the library: configuration files, the environment, threads, sockets and standard output.
