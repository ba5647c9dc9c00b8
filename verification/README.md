# sqwerk

Typed packets over WebSocket connections, with a client that connects again
whenever its connection is lost, and numbered calls between peers.

`src/` is the library. What the protocol decides is decided there and proved with
Verus:

- `token`: the 128 bits that a peer is known by, and their base64 text
- `http`: the request by which a client opens a connection
- `headers`, `peer`: who is at the other end of a handshake
- `frame`, `channel`, `packet`: frames, the channels that they pass through, and
  sending and receiving packets
- `worker`: what the two halves of a connection do about each event
- `interval`, `connection`: when a client dials, pauses and gives up
- `rpc`: calls, their numbers and their answers
- `error`: what can go wrong

`app/` runs it: sockets, tasks, clocks and `serde`. It also picks the port to dial
where an address names none. Calls into other crates that the library makes stand
behind small functions whose comments say what is taken on trust.
