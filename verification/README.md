# rpcedge-relay

Rules for submitting transactions to an RPCEdge relay, verified with Verus, and clients over HTTP
and QUIC that follow them.

- `src/` is the library. Every function states in its contract what it returns, and Verus proves
  it: route sets (`routes`), transaction formats and base64 (`transaction`), the HTTP envelope
  (`request`), QUIC frames (`frame`), the HTTP and QUIC clients' requests and replies (`http`,
  `quic`), what a failed attempt means (`attempt`), the choice between the transports (`adaptive`)
  and reconnection (`supervisor`).
- `app/` does the input and output: it makes the posts, carries the bytes, keeps time, and turns
  JSON into the library's types and back.
- `tests/` runs the library.

The library calls `base64` and a few functions of the standard library through items whose
contracts are trusted; each says so in its doc comment.
