# actr

The rules of an actor runtime, written in Rust and verified with Verus: its
configuration, the lanes that carry messages, peer connections, signaling, the
verification of credentials and the recovery from network changes.

- `src/` is the verified library. Each module holds plain data, the functions that
  decide over it, and their contracts. Laws that span several functions stand next to
  them as public proof functions.
- `app/` runs the library: it reads files, holds sockets, peer connections, timers and
  tasks, performs the actions that the library returns and reports back the events.
- `tests/` runs the library's functions on concrete values.

| Module | What it decides |
|---|---|
| `config` | how a configuration file is inherited, parsed and checked |
| `transport::fragment`, `transport::reassembly` | how messages are cut into frames and put together again |
| `transport::lane` | how a message is sent and received over a data channel, a web socket or within the process |
| `transport::wire_builder` | which connections are made to a destination |
| `wire::webrtc::signaling`, `requests`, `reconnect` | the signaling client: connecting, requests, replies, pings, reconnecting |
| `wire::webrtc::connection` | a peer connection: its states, lanes, media tracks and how it is closed |
| `wire::websocket` | which inbound connections are let in, and where their messages go |
| `ais_key_cache` | which keys verify a credential |
| `lifecycle` | setting up a system, and what is done about a network event |
| `ffi` | what foreign callers see: errors and the shape of audio frames |

Outside crates are called through a few trusted functions, each with a comment that says
what is claimed of the call.
