# roslibrust_rosbridge

A client for [rosbridge](https://github.com/RobotWebTools/rosbridge_suite), in two parts.

- `src/` decides. It tracks what a connection has advertised, subscribed to and called, reads
  incoming messages, says what to send and whom to wake, and knows when a connection is dead and
  what a new one has to be told. All of it is verified with Verus.
- `app/` acts. It owns the websocket, the clock, the tasks and the callbacks, and does what `src/`
  tells it to.

Where to look:

| module | contents |
|---|---|
| `handle`, `client` | the operations of a handle and the state of its connection |
| `message`, `frame`, `json` | what is read from the wire and what is put on it |
| `heartbeat`, `spin` | when a connection is alive, and what to do when it is not |
| `queue`, `subscription`, `service`, `table` | the records and collections behind them |
| `options`, `label`, `error`, `time` | settings, log labels, errors and durations |
| `laws`, `history` | what holds across operations, and over every run of them |

`json`, `table` and `handle` hold the contracts of the outside functions that the proofs rely on:
those of `serde_json`, `dashmap` and `uuid`.
