# raft

A Raft consensus server written in Verus. The server's reactions to
messages and timeouts are executable functions proved against a
mathematical state machine; properties that hold across events are
proved as lemmas.

Layout of `src/`:

- `types`, `role`: identities, terms, log indexes, roles.
- `messages`, `server_action`: what servers exchange, what a server asks of
  its host, and their views.
- `model`: the server as a state machine over `ServerView`.
- `server`: the executable server, each handler proved to follow `model`.
- `raft`: one turn of the server's loop (`Raft::step`): an event goes to
  its handler and the handler's action becomes a send, a timeout reset or
  a stop.
- `laws`: properties of every turn (terms never go back, a vote stands
  within its term, leaders hold a majority, ...).
- `election_timeout`, `config`, `node`: timeouts (random, through `rand`),
  node configuration, and the node's join-and-campaign state machine.
- `log`, `state`, `in_memory`: log entries, persistent state and their
  volatile stores.

`app/` holds the host: channels, threads and `recv_timeout` loops that
hand each event to the library and perform what it returns.
