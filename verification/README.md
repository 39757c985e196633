# moonsock

A client library for Moonraker, the API server of the Klipper 3D-printer
firmware, spoken to over its websocket with JSON-RPC.

- `src/` is the verified library (Verus): the message types, the routing of
  responses to the requests that wait for them (including errors that come
  without an id and the deadlines that follow them), the reading of each
  answer, the readiness check of the printer as a step function, the request
  id counter, the websocket URL and socket address, and the temperature store.
  Each public function states what it returns in its contract; the laws that
  relate several functions are public proof functions.
- `app/` moves the messages: the websocket tasks, the async clients
  (`JsonRpcWsClient`, `MoonrakerClient`, `MoonConnection`), the terminal
  prompt and spinner, and the serde forms of the library's types.
- `tests/` runs the library on concrete values.

Representation choices:

- The temperature store keeps its entries in a `Vec` of name and data, with
  the invariant `wf` that no name occurs twice; `add_to_hashmap` replaces the
  entry of its name as a map insert does. Its key holds a `String`, for
  which a verified map of vstd offers no key model.
- A map keyed by strings is a `Vec` of pairs: those read from an ordered map
  carry `ascending_keys` (each key once, in increasing order), the others
  `distinct_keys`; each such type has `wf` and a verified `well_formed`
  check, which `app/` runs on the data it hands in.
- `MoonrakerClient` is built on the JSON-RPC client that reads a message
  first as a notification (`jsonrpc_ws_client::client`), the one whose
  `connect`, `send_with_response` and `send_no_response` it calls; the other
  client (`jsonrpc_ws_client::new_client`) has `new`, `send` and `send_listen`.
- Both `MoonrakerClient::ensure_ready` and `MoonConnection::ensure_ready` run
  one loop (`app/readiness.rs`) over the library's readiness step functions;
  they differ only in what they log.
