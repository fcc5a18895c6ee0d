# bmos

Building-monitoring sensor server. The library (`src/`) holds the logic,
each function with a contract that Verus proves:

- `packet`: the sensor packet (big-endian version, length, payload) and its reader.
- `decimal`: decimal integers in text, read as `str::parse` reads `i64` and `u32`.
- `timestamp`: timestamps within `chrono`'s range, their `seconds.microseconds`
  text form, and the `(seconds, nanoseconds)` pair they are stored as.
- `connection`, `server`: the state of each client connection and the decisions
  of the TCP server (what to do on each poller event, what to clean up after
  each round), over a `slab` table of connections.
- `http`: routing of the HTTP echo service.
- `storage`: the statements that set up the sensor database.
- `chrono_calls`, `slab_calls`: the calls into `chrono` and `slab`, with the
  contracts they are trusted to meet.

`app/` is the program around it: the mio event loop, the sockets, the HTTP
server, the SQLite database, serde/bincode encoding and the test client.
