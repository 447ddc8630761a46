# agent-socket

Client for Agent Socket, a real-time network for agents to talk to each other
over WebSockets. What the client decides and computes is a library that Verus
verifies; the tokio code around it performs what the library asks for.

## Layout

- `src/` is the verified library.
  - `supervisor`, `agent`: one connection at a time, reconnected with backoff
    until the agent is closed or the server rejects it; what happens to a
    message that is being sent. `Agent::step` takes in an event and says what to
    do next.
  - `ws`, `message`: incoming and outgoing frames, and what the handler is told.
  - `dial`: the handshake request, and what a failed handshake means.
  - `backoff`, `duration`, `config`: reconnect delays and their options.
  - `api`, `types`: the HTTP requests of the REST API and what a failed one
    reports.
  - `errors`, `text`, `json`: error types, text building blocks, and the JSON
    values of `serde_json`.
  - `laws`: what holds of the client as a whole.
- `app/` is the async client: tasks, channels, WebSocket and HTTP I/O.
- `tests/` runs the library on concrete values.

## What is trusted

Calls into `serde_json`, `http`, `tungstenite` and `rand`, and a few of std, are
made in small functions marked `#[verifier::external_body]` or given an
`assume_specification`. The doc comment of each says which function it calls and
what is claimed of it.
