# imvote

A chat server cluster that elects a leader among its servers. Each server runs
an HTTP server for the websocket sessions of the voters, and one voter per
server of the cluster that votes, sends heartbeats and follows the leader.

- `src/` is the library, verified with Verus: the configuration and its
  defaults, the host-based table of credentials and the authentication of a
  peer (`config`, `net`, `auth`, `servlet`), the shared election state
  (`shared`), the messages (`ws`), the server's handling of sessions, votes and
  heartbeats (`server`, `session`), the voter's decisions (`vot`) and the stored
  election data (`pom`, `db`, `voter`).
- `app/` is the program around it: command line, configuration files, the
  SQLite store, JSON, the actix actors and the websocket client loops.
- `tests/` runs the library on concrete values.
