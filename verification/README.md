# socket_server

A WebSocket game server. Clients send binary frames made of a big-endian
`u16` command and a payload; the server answers with frames made of a
big-endian `u16` error code, the command and the response data.

- `src/` is the library, verified with Verus: frame decoding and encoding
  (`frame`), the command router (`router`, `axum_route`), the connection
  manager that hands out connection ids (`socket_mgr`), the pool of response
  senders (`channel_pool`), and the thin trusted wrappers around `bytes`,
  `byteorder` and `tokio` (`buffer`, `byte_order`, `channel`).
- `app/` is the program: sockets, tasks, protobuf encoding, printing.
- `tests/` runs the library on concrete inputs.
