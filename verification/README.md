# chat

A chat room over WebSocket (and over line-based TCP), with its logic
verified by Verus.

- `src/` is the verified library:
  - `users.rs`: the registry of users, held in two `DashMap`s (users by id,
    ids by name), with registration, removal and lookup, and the laws that
    keep names unique.
  - `protocol.rs`: the client and server messages, broadcasts tagged with
    their sender, and who receives a broadcast (everyone, except that a chat
    message does not go back to its sender).
  - `messages.rs`: how the WebSocket server answers each client message,
    what it broadcasts, and the per-connection session decisions.
  - `server.rs`: the line-based TCP server's state and decisions.
  - `client.rs`: the client's decisions: addresses, typed commands, and what
    to show for each server message.
  - `text.rs`: trimming white space and writing numbers in decimal.
- `app/` is the program around it: command line, sockets, the async tasks,
  the broadcast channel, and the JSON encoding of messages.
  One binary with four subcommands: `server --addr`, `client --host --port
  --username`, `tcp-server`, `tcp-client`.
- `tests/` exercises the library.
