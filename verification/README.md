# mining_net

A small UDP message bus, verified with Verus: a server that accepts client
connections, keeps the data they send for the caller to read, sends tasks
to every connection or to one, and reports connections that dropped; and a
client that connects to it within a time limit and writes to it until the
server stops answering.

- `src/message.rs`: socket addresses and the message type.
- `src/error.rs`: errors, and which receive failures a loop survives.
- `src/client.rs`: client set-up, its writes and disconnection, and the
  decisions of its receive loop.
- `src/server.rs`: the server's life cycle (created, running, closed), the
  address it binds, its connections, pending data, drops and outgoing
  queue, and the decisions of its listening and serving loops.
- `src/rpc.rs`: a remote procedure (addition) and the bincode packages of its
  arguments and result.
- `app/`: the program: sockets, channels, threads and the loops that feed
  events to the library and send what it queues.
