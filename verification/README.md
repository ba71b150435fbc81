# w_network

A WebSocket peer-to-peer networking layer whose decisions are verified with Verus.

Nodes are known by public keys and exchange commands: broadcast messages, direct messages,
identifications, pings and pongs. A node keeps what it received in two queues, remembers where
each node is reached, and pings its connections.

- `src/` is the library. It holds the state of a node and every decision: the wire format
  (`wire`), the table of nodes (`nodes`), the life of a connection (`session`), opening one
  (`connect`), sending (`send`, `broadcast`) and accepting (`listen`). `model` says what the
  state is and how it changes, and `laws` what holds over any history.
- `app/` is the program around it, on `async-std` and `async-tungstenite`: it performs the
  actions that the library asks for and reports what came of them.
- `tests/` runs the library on concrete values.

Integers and byte strings are put on the wire by `bincode`; what is believed of it without proof
stands above the four functions in `wire` that call it. Messages are of the user's own type and
are encoded and decoded in `app/`.
