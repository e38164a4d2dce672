# burrow

A WebSocket tunnel to the services behind it, and a multiplexed connection that
carries many substreams. What is routed, relayed, counted and replied is decided by
a library that is verified with Verus. The program around it owns the sockets,
channels and tasks; it passes on the errors of binding and connecting, and panics
where the service behind the tunnel cannot be reached.

- `src/tunnel`: the command line, where a connection is routed, what is relayed
  and what is shown on the console.
- `src/multiplexing`: the connection, its request handle, the worker that drives
  it, the count of its substreams, and (in `history.rs`) what holds of it whatever
  happens.
- `src/utils`: stream identifiers and wildcard matching.
- `src/text.rs`: decimal rendering of numbers.
- `app`: the program. It performs an action, reports what came of it, and asks
  the library for the next one.
- `tests`: examples of all of the above on concrete values.

Three things are trusted rather than proved: that the `wildmatch` crate matches
as `utils::matches::wildcard` says, that a `yamux` stream identifier hands out
its number, and that `String::from_utf8_lossy` decodes valid UTF-8.
